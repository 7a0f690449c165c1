//! The source-side type tree and the crossing direction.
use vstd::prelude::*;

use crate::text::{cat, cat3};

verus! {

/// Which way a value crosses the boundary.
#[derive(Clone, Copy, Debug, PartialEq, Eq, Structural)]
pub enum Direction {
    /// From the foreign caller into source code (an argument).
    Incoming,
    /// From source code back to the foreign caller (a return value).
    Outgoing,
}

/// A source location, carried by diagnostics.
#[derive(Clone, Copy, Debug, PartialEq, Eq, Structural)]
pub struct Span {
    pub lo: u32,
    pub hi: u32,
}

/// An abstract source-language type.
#[derive(Debug)]
pub enum TypeDescriptor {
    /// A built-in scalar such as `bool` or `u32`.
    Primitive(String),
    /// The empty tuple `()`.
    Unit,
    /// `&T` (`false`) or `&mut T` (`true`).
    Reference(Box<TypeDescriptor>, bool),
    /// `Option<T>`.
    Optional(Box<TypeDescriptor>),
    /// `Result<T, E>`.
    FallibleResult(Box<TypeDescriptor>, Box<TypeDescriptor>),
    /// `Vec<T>`.
    Sequence(Box<TypeDescriptor>),
    /// Any other type, by its path.
    Named(String),
}

impl TypeDescriptor {
    /// The normalized textual form; types are identified by it.
    pub open spec fn text(self) -> Seq<char>
        decreases self,
    {
        match self {
            TypeDescriptor::Primitive(n) => n@,
            TypeDescriptor::Named(p) => p@,
            TypeDescriptor::Unit => "()"@,
            TypeDescriptor::Reference(t, m) => if m {
                "&mut "@ + t.text()
            } else {
                "&"@ + t.text()
            },
            TypeDescriptor::Optional(t) => "Option<"@ + t.text() + ">"@,
            TypeDescriptor::FallibleResult(o, e) => "Result<"@ + o.text() + ", "@ + e.text()
                + ">"@,
            TypeDescriptor::Sequence(t) => "Vec<"@ + t.text() + ">"@,
        }
    }

    /// How deeply the type nests.
    pub open spec fn depth(self) -> nat
        decreases self,
    {
        match self {
            TypeDescriptor::Reference(t, _) => t.depth() + 1,
            TypeDescriptor::Optional(t) => t.depth() + 1,
            TypeDescriptor::Sequence(t) => t.depth() + 1,
            TypeDescriptor::FallibleResult(o, e) => if o.depth() >= e.depth() {
                o.depth() + 1
            } else {
                e.depth() + 1
            },
            _ => 0,
        }
    }

    /// Computes the normalized textual form.
    pub fn normalized_name(&self) -> (r: String)
        ensures
            r@ == self.text(),
        decreases self,
    {
        match self {
            TypeDescriptor::Primitive(n) => n.clone(),
            TypeDescriptor::Named(p) => p.clone(),
            TypeDescriptor::Unit => String::from_str("()"),
            TypeDescriptor::Reference(t, m) => {
                let inner = t.normalized_name();
                if *m {
                    cat("&mut ", inner.as_str())
                } else {
                    cat("&", inner.as_str())
                }
            },
            TypeDescriptor::Optional(t) => {
                let inner = t.normalized_name();
                cat3("Option<", inner.as_str(), ">")
            },
            TypeDescriptor::FallibleResult(o, e) => {
                let ok = o.normalized_name();
                let err = e.normalized_name();
                let head = cat3("Result<", ok.as_str(), ", ");
                cat3(head.as_str(), err.as_str(), ">")
            },
            TypeDescriptor::Sequence(t) => {
                let inner = t.normalized_name();
                cat3("Vec<", inner.as_str(), ">")
            },
        }
    }
}

} // verus!
