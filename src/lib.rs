//! Foreign-type resolution for a C++ binding generator: decides how a
//! source type crosses into the foreign layer, which converter expressions
//! it needs, and which vector-wrapper helpers a run must produce.
//!
//! `resolution` states what resolving a type yields, rule by rule;
//! `engine::map_type` computes it, and `laws` proves properties of it.

pub mod config;
pub mod engine;
pub mod laws;
pub mod mapping;
pub mod registry;
pub mod resolution;
pub mod rules;
pub mod template;
pub mod text;
pub mod types;
