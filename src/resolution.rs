//! What resolving a type produces, stated rule by rule, and what it adds to
//! the run's record.
use vstd::prelude::*;

use crate::config::{
    optional_template, variant_template, vec_wrapper_type, with_vec_helper, DialectConfig,
    RunRecord,
};
use crate::mapping::{ConverterView, DiagnosticView, KindView, MappingView, UnsupportedShape};
use crate::registry::{ConversionRegistry, ExportedClassInfo, ExportedEnumInfo, ForeignBaseType};
use crate::rules::{rule_of, Rule};
use crate::template::Part;
use crate::types::{Direction, Span, TypeDescriptor};

verus! {

/// The low-level snippet for exported enums: a local `uint32_t` taken from
/// the incoming value.
pub const ENUM_C_CONVERTER: &'static str = "\n        uint32_t {to_var} = {from_var};\n";

/// The ABI struct that carries a fallible result.
pub const RESULT_STRUCT: &'static str = "struct CResultObjectString";

pub open spec fn diag(kind: KindView, dir: Direction, ty: TypeDescriptor, span: Span) -> DiagnosticView {
    DiagnosticView { kind, direction: dir, type_text: ty.text(), span }
}

pub open spec fn missing(name: Seq<char>, dir: Direction, ty: TypeDescriptor, span: Span) -> Result<
    MappingView,
    DiagnosticView,
> {
    Err(diag(KindView::MissingBaseType(name), dir, ty, span))
}

pub open spec fn unsupported(
    shape: UnsupportedShape,
    dir: Direction,
    ty: TypeDescriptor,
    span: Span,
) -> Result<MappingView, DiagnosticView> {
    Err(diag(KindView::Unsupported(shape), dir, ty, span))
}

/// A base type with no converters.
pub open spec fn plain(b: ForeignBaseType) -> MappingView {
    MappingView { base_name: b.name@, base_native: b.native@, c_converter: Seq::empty(), cpp: None }
}

pub open spec fn with_converter(m: MappingView, c: ConverterView) -> MappingView {
    MappingView {
        base_name: m.base_name,
        base_native: m.base_native,
        c_converter: m.c_converter,
        cpp: Some(c),
    }
}

/// A template of literal text only.
pub open spec fn literal(s: Seq<char>) -> Seq<Part> {
    seq![Part::Text(s)]
}

/// `head`, then the value, then `tail`.
pub open spec fn around(head: Seq<char>, tail: Seq<char>) -> Seq<Part> {
    seq![Part::Text(head), Part::Value, Part::Text(tail)]
}

/// The value, then `tail`.
pub open spec fn value_then(tail: Seq<char>) -> Seq<Part> {
    seq![Part::Value, Part::Text(tail)]
}

/// The fallback: the registry's conversion, or a diagnostic.
pub open spec fn ordinal(reg: ConversionRegistry, ty: TypeDescriptor, dir: Direction, span: Span) -> Result<
    MappingView,
    DiagnosticView,
> {
    match reg.conversion_of(ty, dir) {
        Some(b) => Ok(plain(b)),
        None => Err(diag(KindView::NoConversion, dir, ty, span)),
    }
}

pub open spec fn enum_mapping(e: ExportedEnumInfo) -> MappingView {
    MappingView {
        base_name: e.name@,
        base_native: "u32"@,
        c_converter: ENUM_C_CONVERTER@,
        cpp: None,
    }
}

pub open spec fn bool_converter() -> ConverterView {
    ConverterView { typename: "bool"@, output: value_then(" != 0"@), input: value_then(" ? 1 : 0"@) }
}

/// The ABI pointer type of class `c`.
pub open spec fn class_pointer(c: ExportedClassInfo, readonly: bool) -> Seq<char> {
    if readonly {
        "const "@ + c.c_type@ + " *"@
    } else {
        c.c_type@ + " *"@
    }
}

/// The ABI pointer type of class `c`, or a diagnostic that names the class.
pub open spec fn class_base(
    reg: ConversionRegistry,
    c: ExportedClassInfo,
    readonly: bool,
    dir: Direction,
    ty: TypeDescriptor,
    span: Span,
) -> Result<MappingView, DiagnosticView> {
    match reg.base_named(class_pointer(c, readonly)) {
        Some(b) => Ok(plain(b)),
        None => Err(diag(KindView::UnknownClass(c.name@), dir, ty, span)),
    }
}

pub open spec fn class_ref_converter(c: ExportedClassInfo, base_name: Seq<char>, dir: Direction) -> ConverterView {
    if dir == Direction::Outgoing {
        ConverterView {
            typename: c.name@ + "Ref"@,
            output: around(c.name@ + "Ref{"@, "}"@),
            input: literal("UNREACHABLE"@),
        }
    } else {
        ConverterView {
            typename: "const "@ + c.name@ + " &"@,
            output: literal("UNREACHABLE"@),
            input: around("static_cast<"@ + base_name + ">("@, ")"@),
        }
    }
}

pub open spec fn class_value_converter(c: ExportedClassInfo) -> ConverterView {
    ConverterView {
        typename: c.name@,
        output: around(c.name@ + "("@, ")"@),
        input: value_then(".release()"@),
    }
}

/// The tagged union of `arm` and a string.
pub open spec fn variant_type(cfg: DialectConfig, arm: Seq<char>) -> Seq<char> {
    variant_template(cfg.variant) + "<"@ + arm + ", RustString>"@
}

/// Branches on the success flag: the success arm is built from the `ok`
/// slot between `ok_open` and `ok_close`, the error arm from the `err` slot.
pub open spec fn result_output(t: Seq<char>, ok_open: Seq<char>, ok_close: Seq<char>) -> Seq<Part> {
    seq![
        Part::Value,
        Part::Text(".is_ok != 0 ?\n "@ + t + "{"@ + ok_open),
        Part::Value,
        Part::Text(".data.ok"@ + ok_close + " :\n "@ + t + "{RustString{"@),
        Part::Value,
        Part::Text(".data.err}}"@),
    ]
}

pub open spec fn class_result_converter(cfg: DialectConfig, c: ExportedClassInfo) -> ConverterView {
    let t = variant_type(cfg, c.name@);
    ConverterView {
        typename: t,
        output: result_output(t, c.name@ + "(static_cast<"@ + c.c_type@ + " *>("@, "))}"@),
        input: literal("#error"@),
    }
}

pub open spec fn vec_result_converter(cfg: DialectConfig, c: ExportedClassInfo) -> ConverterView {
    let w = vec_wrapper_type(c.name@);
    let t = variant_type(cfg, w);
    ConverterView {
        typename: t,
        output: result_output(t, w + "{"@, "}}"@),
        input: literal("#error"@),
    }
}

pub open spec fn unit_result_converter(cfg: DialectConfig) -> ConverterView {
    let t = variant_type(cfg, "void *"@);
    ConverterView { typename: t, output: result_output(t, ""@, "}"@), input: literal("#error"@) }
}

/// `Result<ok, err>` as a return value; `ok_resolved` is the resolution of
/// `ok` as a return value.
pub open spec fn resolve_result(
    reg: ConversionRegistry,
    cfg: DialectConfig,
    ty: TypeDescriptor,
    ok: TypeDescriptor,
    err: TypeDescriptor,
    span: Span,
    ok_resolved: Result<MappingView, DiagnosticView>,
) -> Result<MappingView, DiagnosticView> {
    let dir = Direction::Outgoing;
    if reg.class_of(ok) is Some {
        match reg.base_named(RESULT_STRUCT@) {
            None => missing(RESULT_STRUCT@, dir, ty, span),
            Some(b) => if err.text() == "String"@ {
                Ok(with_converter(plain(b), class_result_converter(cfg, reg.class_of(ok)->0)))
            } else {
                unsupported(UnsupportedShape::NonStringError, dir, ty, span)
            },
        }
    } else {
        match ok {
            TypeDescriptor::Sequence(elem) => if err.text() != "String"@ {
                unsupported(UnsupportedShape::NonStringError, dir, ty, span)
            } else {
                match reg.class_of(*elem) {
                    None => unsupported(UnsupportedShape::ResultSequenceElement, dir, ty, span),
                    Some(c) => match ok_resolved {
                        Err(e) => Err(e),
                        Ok(_) => match ordinal(reg, ty, dir, span) {
                            Err(e) => Err(e),
                            Ok(m) => Ok(with_converter(m, vec_result_converter(cfg, c))),
                        },
                    },
                }
            },
            TypeDescriptor::Unit => if err.text() == "String"@ {
                match reg.base_named(RESULT_STRUCT@) {
                    None => missing(RESULT_STRUCT@, dir, ty, span),
                    Some(b) => Ok(with_converter(plain(b), unit_result_converter(cfg))),
                }
            } else {
                unsupported(UnsupportedShape::NonStringError, dir, ty, span)
            },
            _ => unsupported(UnsupportedShape::ResultOkType, dir, ty, span),
        }
    }
}

/// `opt<arg>` in the configured optional dialect.
pub open spec fn optional_type(cfg: DialectConfig, arg: Seq<char>) -> Seq<char> {
    optional_template(cfg.optional) + "<"@ + arg + ">"@
}

pub open spec fn optional_class_converter(cfg: DialectConfig, c: ExportedClassInfo) -> ConverterView {
    ConverterView {
        typename: optional_type(cfg, c.name@),
        output: seq![
            Part::Value,
            Part::Text(" != nullptr ? "@ + c.name@ + "("@),
            Part::Value,
            Part::Text(") : "@ + optional_type(cfg, c.name@) + "()"@),
        ],
        input: literal("#error"@),
    }
}

pub open spec fn optional_out_converter(cfg: DialectConfig, f: Seq<char>) -> ConverterView {
    ConverterView {
        typename: optional_type(cfg, f),
        output: seq![
            Part::Value,
            Part::Text(".is_some ? "@),
            Part::Value,
            Part::Text(".val : "@ + optional_type(cfg, f) + "()"@),
        ],
        input: literal("#error"@),
    }
}

/// `s` without a leading `struct `.
pub open spec fn strip_struct(s: Seq<char>) -> Seq<char> {
    if s.len() >= 7 && s.subrange(0, 7) == "struct "@ {
        s.subrange(7, s.len() as int)
    } else {
        s
    }
}

pub open spec fn optional_in_converter(cfg: DialectConfig, f: Seq<char>, c_option: Seq<char>) -> ConverterView {
    let cn = strip_struct(c_option);
    ConverterView {
        typename: optional_type(cfg, f),
        output: literal("#error"@),
        input: seq![
            Part::Text("!!"@),
            Part::Value,
            Part::Text(" ? "@ + cn + "{*"@),
            Part::Value,
            Part::Text(", 1} : c_option_empty<"@ + cn + ">()"@),
        ],
    }
}

/// `Option<inner>` as a return value.
pub open spec fn resolve_option_out(
    reg: ConversionRegistry,
    cfg: DialectConfig,
    ty: TypeDescriptor,
    inner: TypeDescriptor,
    span: Span,
) -> Result<MappingView, DiagnosticView> {
    let dir = Direction::Outgoing;
    match reg.class_of(inner) {
        Some(c) => match class_base(reg, c, false, dir, inner, span) {
            Err(e) => Err(e),
            Ok(m) => Ok(with_converter(m, optional_class_converter(cfg, c))),
        },
        None => match ordinal(reg, ty, dir, span) {
            Err(e) => Err(e),
            Ok(m) => match ordinal(reg, inner, dir, span) {
                Err(e) => Err(e),
                Ok(mi) => Ok(with_converter(m, optional_out_converter(cfg, mi.base_name))),
            },
        },
    }
}

/// `Option<inner>` as an argument.
pub open spec fn resolve_option_in(
    reg: ConversionRegistry,
    cfg: DialectConfig,
    ty: TypeDescriptor,
    inner: TypeDescriptor,
    span: Span,
) -> Result<MappingView, DiagnosticView> {
    let dir = Direction::Incoming;
    match reg.class_of(inner) {
        Some(_) => unsupported(UnsupportedShape::OptionalClassIncoming, dir, ty, span),
        None => match ordinal(reg, ty, dir, span) {
            Err(e) => Err(e),
            Ok(m) => match ordinal(reg, inner, dir, span) {
                Err(e) => Err(e),
                Ok(mi) => Ok(with_converter(m, optional_in_converter(cfg, mi.base_name, m.base_name))),
            },
        },
    }
}

/// The predefined wrapper of a sequence whose ABI form is `native`.
pub open spec fn predefined_vec(native: Seq<char>) -> Option<Seq<char>> {
    if native == "CRustVecU8"@ {
        Some("RustVecU8"@)
    } else if native == "CRustVecU32"@ {
        Some("RustVecU32"@)
    } else if native == "CRustVecF32"@ {
        Some("RustVecF32"@)
    } else if native == "CRustVecF64"@ {
        Some("RustVecF64"@)
    } else {
        None
    }
}

pub open spec fn vec_converter(w: Seq<char>) -> ConverterView {
    ConverterView { typename: w, output: around(w + "{"@, "}"@), input: literal("#error"@) }
}

/// `Vec<elem>` as a return value.
pub open spec fn resolve_sequence(
    reg: ConversionRegistry,
    ty: TypeDescriptor,
    elem: TypeDescriptor,
    span: Span,
) -> Result<MappingView, DiagnosticView> {
    match ordinal(reg, ty, Direction::Outgoing, span) {
        Err(e) => Err(e),
        Ok(m) => match reg.class_of(elem) {
            Some(c) => Ok(with_converter(m, vec_converter(vec_wrapper_type(c.name@)))),
            None => match predefined_vec(m.base_native) {
                Some(w) => Ok(with_converter(m, vec_converter(w))),
                None => unsupported(UnsupportedShape::SequenceElement, Direction::Outgoing, ty, span),
            },
        },
    }
}

/// The mapping of `ty` crossing in direction `dir`, or the diagnostic.
pub open spec fn resolve(
    reg: ConversionRegistry,
    cfg: DialectConfig,
    ty: TypeDescriptor,
    dir: Direction,
    span: Span,
) -> Result<MappingView, DiagnosticView>
    decreases ty,
{
    match rule_of(reg, ty, dir) {
        Rule::ExportedEnum => Ok(enum_mapping(reg.enum_of(ty)->0)),
        Rule::Boolean => match reg.base_named("char"@) {
            Some(b) => Ok(with_converter(plain(b), bool_converter())),
            None => missing("char"@, dir, ty, span),
        },
        Rule::ClassReference => match ty {
            TypeDescriptor::Reference(t, _) => {
                let c = reg.class_of(*t)->0;
                match class_base(reg, c, true, dir, ty, span) {
                    Ok(m) => Ok(with_converter(m, class_ref_converter(c, m.base_name, dir))),
                    Err(e) => Err(e),
                }
            },
            _ => arbitrary(),
        },
        Rule::ClassValue => {
            let c = reg.class_of(ty)->0;
            match class_base(reg, c, false, dir, ty, span) {
                Ok(m) => Ok(with_converter(m, class_value_converter(c))),
                Err(e) => Err(e),
            }
        },
        Rule::ResultOutgoing => match ty {
            TypeDescriptor::FallibleResult(ok, err) => resolve_result(
                reg,
                cfg,
                ty,
                *ok,
                *err,
                span,
                resolve(reg, cfg, *ok, Direction::Outgoing, span),
            ),
            _ => arbitrary(),
        },
        Rule::OptionalOutgoing => match ty {
            TypeDescriptor::Optional(t) => resolve_option_out(reg, cfg, ty, *t, span),
            _ => arbitrary(),
        },
        Rule::OptionalIncoming => match ty {
            TypeDescriptor::Optional(t) => resolve_option_in(reg, cfg, ty, *t, span),
            _ => arbitrary(),
        },
        Rule::SequenceOutgoing => match ty {
            TypeDescriptor::Sequence(t) => resolve_sequence(reg, ty, *t, span),
            _ => arbitrary(),
        },
        Rule::Ordinary => ordinal(reg, ty, dir, span),
    }
}

/// The class whose vector wrapper resolving `ty` asks for, if any.
pub open spec fn vec_wrapper_request(reg: ConversionRegistry, ty: TypeDescriptor, dir: Direction) -> Option<
    ExportedClassInfo,
>
    decreases ty,
{
    match rule_of(reg, ty, dir) {
        Rule::SequenceOutgoing => match ty {
            TypeDescriptor::Sequence(elem) => if reg.conversion_of(ty, Direction::Outgoing) is Some {
                reg.class_of(*elem)
            } else {
                None
            },
            _ => None,
        },
        Rule::ResultOutgoing => match ty {
            TypeDescriptor::FallibleResult(ok, err) => {
                let elem_is_class = match *ok {
                    TypeDescriptor::Sequence(elem) => reg.class_of(*elem) is Some,
                    _ => false,
                };
                if reg.class_of(*ok) is None && err.text() == "String"@ && elem_is_class {
                    vec_wrapper_request(reg, *ok, Direction::Outgoing)
                } else {
                    None
                }
            },
            _ => None,
        },
        _ => None,
    }
}

/// The run's record after resolving `ty` in direction `dir`.
pub open spec fn resolve_effect(
    reg: ConversionRegistry,
    cfg: DialectConfig,
    rec: RunRecord,
    ty: TypeDescriptor,
    dir: Direction,
) -> RunRecord {
    match vec_wrapper_request(reg, ty, dir) {
        Some(c) => with_vec_helper(rec, cfg, c),
        None => rec,
    }
}

} // verus!
