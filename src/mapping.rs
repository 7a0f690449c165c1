//! What resolution produces: a foreign-type mapping, or a diagnostic.
use vstd::prelude::*;

use crate::registry::ForeignBaseType;
use crate::template::{Part, Template};
use crate::text::{cat3, cat5};
use crate::types::{Direction, Span};

verus! {

/// The high-level (foreign-object) type and the expressions that convert
/// to it from the ABI value (`output_converter`) and back
/// (`input_converter`).
#[derive(Debug)]
pub struct HighLevelConverter {
    pub typename: String,
    pub output_converter: Template,
    pub input_converter: Template,
}

/// How one source type crosses the boundary.
#[derive(Debug)]
pub struct ForeignMapping {
    pub base: ForeignBaseType,
    /// A low-level conversion snippet; empty when none is needed.
    pub c_converter: String,
    pub cpp_converter: Option<HighLevelConverter>,
}

/// Type shapes that are recognized but not supported.
#[derive(Clone, Copy, Debug, PartialEq, Eq, Structural)]
pub enum UnsupportedShape {
    /// A fallible result whose error type is not `String`.
    NonStringError,
    /// A fallible result whose success type is neither an exported class,
    /// a sequence nor `()`.
    ResultOkType,
    /// A fallible result of a sequence whose elements are not an exported
    /// class.
    ResultSequenceElement,
    /// An incoming optional exported class.
    OptionalClassIncoming,
    /// A sequence whose ABI form has no predefined wrapper.
    SequenceElement,
}

/// Why resolution failed.
#[derive(Debug)]
pub enum DiagnosticKind {
    /// A base type that the rules rely on is not registered under this name.
    MissingBaseType(String),
    /// The ABI pointer type of this exported class (named here) is not
    /// registered.
    UnknownClass(String),
    /// The registry knows no conversion for the type.
    NoConversion,
    /// The type has a shape that is not supported.
    Unsupported(UnsupportedShape),
}

/// A fatal, location-tagged diagnostic.
#[derive(Debug)]
pub struct Diagnostic {
    pub kind: DiagnosticKind,
    pub direction: Direction,
    /// The normalized text of the offending type.
    pub type_text: String,
    pub span: Span,
}

pub ghost struct ConverterView {
    pub typename: Seq<char>,
    pub output: Seq<Part>,
    pub input: Seq<Part>,
}

pub ghost struct MappingView {
    pub base_name: Seq<char>,
    pub base_native: Seq<char>,
    pub c_converter: Seq<char>,
    pub cpp: Option<ConverterView>,
}

pub ghost enum KindView {
    MissingBaseType(Seq<char>),
    UnknownClass(Seq<char>),
    NoConversion,
    Unsupported(UnsupportedShape),
}

pub ghost struct DiagnosticView {
    pub kind: KindView,
    pub direction: Direction,
    pub type_text: Seq<char>,
    pub span: Span,
}

impl View for HighLevelConverter {
    type V = ConverterView;

    open spec fn view(&self) -> ConverterView {
        ConverterView {
            typename: self.typename@,
            output: self.output_converter@,
            input: self.input_converter@,
        }
    }
}

impl View for ForeignMapping {
    type V = MappingView;

    open spec fn view(&self) -> MappingView {
        MappingView {
            base_name: self.base.name@,
            base_native: self.base.native@,
            c_converter: self.c_converter@,
            cpp: match self.cpp_converter {
                Some(c) => Some(c@),
                None => None,
            },
        }
    }
}

impl View for Diagnostic {
    type V = DiagnosticView;

    open spec fn view(&self) -> DiagnosticView {
        DiagnosticView {
            kind: match self.kind {
                DiagnosticKind::MissingBaseType(n) => KindView::MissingBaseType(n@),
                DiagnosticKind::UnknownClass(n) => KindView::UnknownClass(n@),
                DiagnosticKind::NoConversion => KindView::NoConversion,
                DiagnosticKind::Unsupported(s) => KindView::Unsupported(s),
            },
            direction: self.direction,
            type_text: self.type_text@,
            span: self.span,
        }
    }
}

/// The view of a resolution outcome.
pub open spec fn outcome(r: Result<ForeignMapping, Diagnostic>) -> Result<MappingView, DiagnosticView> {
    match r {
        Ok(m) => Ok(m@),
        Err(d) => Err(d@),
    }
}

pub open spec fn unsupported_text(s: UnsupportedShape) -> Seq<char> {
    match s {
        UnsupportedShape::NonStringError => "only String is supported as the error type"@,
        UnsupportedShape::ResultOkType => "unsupported success type in Result"@,
        UnsupportedShape::ResultSequenceElement => "Result of Vec needs an exported class element"@,
        UnsupportedShape::OptionalClassIncoming => "Option of an exported class as input"@,
        UnsupportedShape::SequenceElement => "no predefined wrapper for this Vec"@,
    }
}

/// The human-readable text of a diagnostic.
pub open spec fn message_text(d: DiagnosticView) -> Seq<char> {
    match d.kind {
        KindView::MissingBaseType(n) => "type "@ + n + " unknown"@,
        KindView::UnknownClass(n) => "type "@ + n + " unknown"@,
        KindView::NoConversion => match d.direction {
            Direction::Outgoing => "Do not know conversion from such rust type '"@ + d.type_text
                + "' to foreign"@,
            Direction::Incoming => "Do not know conversion from foreign to such rust type '"@
                + d.type_text + "'"@,
        },
        KindView::Unsupported(s) => "not supported: "@ + unsupported_text(s) + " ('"@
            + d.type_text + "')"@,
    }
}

fn unsupported_str(s: UnsupportedShape) -> (r: &'static str)
    ensures
        r@ == unsupported_text(s),
{
    match s {
        UnsupportedShape::NonStringError => "only String is supported as the error type",
        UnsupportedShape::ResultOkType => "unsupported success type in Result",
        UnsupportedShape::ResultSequenceElement => "Result of Vec needs an exported class element",
        UnsupportedShape::OptionalClassIncoming => "Option of an exported class as input",
        UnsupportedShape::SequenceElement => "no predefined wrapper for this Vec",
    }
}

impl Diagnostic {
    /// The human-readable text of this diagnostic.
    pub fn message(&self) -> (r: String)
        ensures
            r@ == message_text(self@),
    {
        match &self.kind {
            DiagnosticKind::MissingBaseType(n) => cat3("type ", n.as_str(), " unknown"),
            DiagnosticKind::UnknownClass(n) => cat3("type ", n.as_str(), " unknown"),
            DiagnosticKind::NoConversion => match self.direction {
                Direction::Outgoing => cat3(
                    "Do not know conversion from such rust type '",
                    self.type_text.as_str(),
                    "' to foreign",
                ),
                Direction::Incoming => cat3(
                    "Do not know conversion from foreign to such rust type '",
                    self.type_text.as_str(),
                    "'",
                ),
            },
            DiagnosticKind::Unsupported(s) => cat5(
                "not supported: ",
                unsupported_str(*s),
                " ('",
                self.type_text.as_str(),
                "')",
            ),
        }
    }
}

} // verus!
