//! The type resolution engine.
use vstd::prelude::*;

use crate::config::{
    lemma_with_vec_helper_wf, optional_template_name, variant_template_name, vec_wrapper_type_name, DialectConfig,
    GenerationContext,
};
use crate::mapping::{
    Diagnostic, DiagnosticKind, ForeignMapping, HighLevelConverter, UnsupportedShape, outcome,
};
use crate::registry::{ConversionRegistry, ExportedClassInfo, ExportedEnumInfo, ForeignBaseType};
use crate::resolution::{
    around, bool_converter, class_base, class_ref_converter, class_result_converter,
    class_value_converter, enum_mapping, literal, optional_class_converter, optional_in_converter,
    optional_out_converter, optional_type, ordinal, plain, predefined_vec, resolve,
    resolve_effect, result_output, strip_struct, unit_result_converter, value_then,
    variant_type, vec_converter, vec_result_converter, vec_wrapper_request, with_converter,
    ENUM_C_CONVERTER, RESULT_STRUCT,
};
use crate::rules::{rule_of, select_rule, Rule};
use crate::template::Template;
use crate::text::{cat, cat3, cat4, cat5, owned};
use crate::types::{Direction, Span, TypeDescriptor};

verus! {

fn fail(kind: DiagnosticKind, dir: Direction, ty: &TypeDescriptor, span: Span) -> (r: Diagnostic)
    ensures
        r.kind == kind,
        r.direction == dir,
        r.type_text@ == ty.text(),
        r.span == span,
{
    Diagnostic { kind, direction: dir, type_text: ty.normalized_name(), span }
}

fn plain_mapping(b: ForeignBaseType) -> (r: ForeignMapping)
    ensures
        r@ == plain(b),
{
    ForeignMapping { base: b, c_converter: String::new(), cpp_converter: None }
}

fn attach(m: ForeignMapping, c: HighLevelConverter) -> (r: ForeignMapping)
    ensures
        r@ == with_converter(m@, c@),
{
    ForeignMapping { base: m.base, c_converter: m.c_converter, cpp_converter: Some(c) }
}

fn converter(typename: String, output: Template, input: Template) -> (r: HighLevelConverter)
    ensures
        r.typename == typename,
        r.output_converter == output,
        r.input_converter == input,
{
    HighLevelConverter { typename, output_converter: output, input_converter: input }
}

fn literal_tpl(s: &str) -> (r: Template)
    ensures
        r@ == literal(s@),
{
    Template::literal(s)
}

fn around_tpl(head: &str, tail: &str) -> (r: Template)
    ensures
        r@ == around(head@, tail@),
{
    let mut t = Template::new();
    t.push_text(head);
    t.push_value();
    t.push_text(tail);
    assert(t@ =~= around(head@, tail@));
    t
}

fn value_then_tpl(tail: &str) -> (r: Template)
    ensures
        r@ == value_then(tail@),
{
    let mut t = Template::new();
    t.push_value();
    t.push_text(tail);
    assert(t@ =~= value_then(tail@));
    t
}

fn result_output_tpl(t: &str, ok_open: &str, ok_close: &str) -> (r: Template)
    ensures
        r@ == result_output(t@, ok_open@, ok_close@),
{
    let mut r = Template::new();
    r.push_value();
    let a = cat4(".is_ok != 0 ?\n ", t, "{", ok_open);
    r.push_text(a.as_str());
    r.push_value();
    let b = cat5(".data.ok", ok_close, " :\n ", t, "{RustString{");
    r.push_text(b.as_str());
    r.push_value();
    r.push_text(".data.err}}");
    assert(r@ =~= result_output(t@, ok_open@, ok_close@));
    r
}

fn optional_type_name(cfg: &DialectConfig, arg: &str) -> (r: String)
    ensures
        r@ == optional_type(*cfg, arg@),
{
    cat4(optional_template_name(cfg.optional), "<", arg, ">")
}

fn variant_type_name(cfg: &DialectConfig, arm: &str) -> (r: String)
    ensures
        r@ == variant_type(*cfg, arm@),
{
    cat4(variant_template_name(cfg.variant), "<", arm, ", RustString>")
}

/// The mapping of an exported enum: a `u32` with a local copy.
pub fn calc_converter_for_enum(foreign_enum: &ExportedEnumInfo) -> (r: ForeignMapping)
    ensures
        r@ == enum_mapping(*foreign_enum),
{
    ForeignMapping {
        base: ForeignBaseType { name: foreign_enum.name.clone(), native: owned("u32") },
        c_converter: owned(ENUM_C_CONVERTER),
        cpp_converter: None,
    }
}

/// The ABI pointer type of an exported class, looked up in the registry.
fn foreign_class_foreign_name(
    reg: &ConversionRegistry,
    c: &ExportedClassInfo,
    readonly: bool,
    dir: Direction,
    ty: &TypeDescriptor,
    span: Span,
) -> (r: Result<ForeignMapping, Diagnostic>)
    ensures
        outcome(r) == class_base(*reg, *c, readonly, dir, *ty, span),
{
    let name = if readonly {
        cat3("const ", c.c_type.as_str(), " *")
    } else {
        cat(c.c_type.as_str(), " *")
    };
    match reg.lookup_base_by_name(name.as_str()) {
        Some(b) => Ok(plain_mapping(b)),
        None => Err(fail(DiagnosticKind::UnknownClass(c.name.clone()), dir, ty, span)),
    }
}

/// The registry's conversion of a return type.
fn map_ordinal_result_type(reg: &ConversionRegistry, ty: &TypeDescriptor, span: Span) -> (r: Result<
    ForeignMapping,
    Diagnostic,
>)
    ensures
        outcome(r) == ordinal(*reg, *ty, Direction::Outgoing, span),
{
    match reg.lookup_transitive(ty, Direction::Outgoing) {
        Some(b) => Ok(plain_mapping(b)),
        None => Err(fail(DiagnosticKind::NoConversion, Direction::Outgoing, ty, span)),
    }
}

/// The registry's conversion of an argument type.
fn map_ordinal_input_type(reg: &ConversionRegistry, ty: &TypeDescriptor, span: Span) -> (r: Result<
    ForeignMapping,
    Diagnostic,
>)
    ensures
        outcome(r) == ordinal(*reg, *ty, Direction::Incoming, span),
{
    match reg.lookup_transitive(ty, Direction::Incoming) {
        Some(b) => Ok(plain_mapping(b)),
        None => Err(fail(DiagnosticKind::NoConversion, Direction::Incoming, ty, span)),
    }
}

fn strip_struct_prefix(s: &str) -> (r: String)
    ensures
        r@ == strip_struct(s@),
{
    let n = s.unicode_len();
    if n >= 7 {
        let head = owned(s.substring_char(0, 7));
        if head == owned("struct ") {
            return owned(s.substring_char(7, n));
        }
    }
    owned(s)
}

fn map_bool(reg: &ConversionRegistry, ty: &TypeDescriptor, dir: Direction, span: Span) -> (r: Result<
    ForeignMapping,
    Diagnostic,
>)
    requires
        rule_of(*reg, *ty, dir) == Rule::Boolean,
    ensures
        forall|cfg: DialectConfig| outcome(r) == #[trigger] resolve(*reg, cfg, *ty, dir, span),
{
    match reg.lookup_base_by_name("char") {
        None => Err(fail(DiagnosticKind::MissingBaseType(owned("char")), dir, ty, span)),
        Some(b) => {
            let c = converter(owned("bool"), value_then_tpl(" != 0"), value_then_tpl(" ? 1 : 0"));
            assert(c@ == bool_converter());
            Ok(attach(plain_mapping(b), c))
        },
    }
}

fn map_class_reference(
    reg: &ConversionRegistry,
    ty: &TypeDescriptor,
    dir: Direction,
    span: Span,
) -> (r: Result<ForeignMapping, Diagnostic>)
    requires
        rule_of(*reg, *ty, dir) == Rule::ClassReference,
    ensures
        forall|cfg: DialectConfig| outcome(r) == #[trigger] resolve(*reg, cfg, *ty, dir, span),
{
    let target = match ty {
        TypeDescriptor::Reference(t, _) => t,
        _ => {
            assert(false);
            return Err(fail(DiagnosticKind::NoConversion, dir, ty, span));
        },
    };
    let c = reg.classify_as_exported_class(target).unwrap();
    let m = match foreign_class_foreign_name(reg, &c, true, dir, ty, span) {
        Ok(m) => m,
        Err(e) => return Err(e),
    };
    let conv = if dir == Direction::Outgoing {
        converter(
            cat(c.name.as_str(), "Ref"),
            around_tpl(cat(c.name.as_str(), "Ref{").as_str(), "}"),
            literal_tpl("UNREACHABLE"),
        )
    } else {
        let head = cat3("static_cast<", m.base.name.as_str(), ">(");
        converter(
            cat3("const ", c.name.as_str(), " &"),
            literal_tpl("UNREACHABLE"),
            around_tpl(head.as_str(), ")"),
        )
    };
    assert(conv@ == class_ref_converter(c, m@.base_name, dir));
    Ok(attach(m, conv))
}

fn map_class_value(reg: &ConversionRegistry, ty: &TypeDescriptor, dir: Direction, span: Span) -> (r:
    Result<ForeignMapping, Diagnostic>)
    requires
        rule_of(*reg, *ty, dir) == Rule::ClassValue,
    ensures
        forall|cfg: DialectConfig| outcome(r) == #[trigger] resolve(*reg, cfg, *ty, dir, span),
{
    let c = reg.classify_as_exported_class(ty).unwrap();
    let m = match foreign_class_foreign_name(reg, &c, false, dir, ty, span) {
        Ok(m) => m,
        Err(e) => return Err(e),
    };
    let conv = converter(
        c.name.clone(),
        around_tpl(cat(c.name.as_str(), "(").as_str(), ")"),
        value_then_tpl(".release()"),
    );
    assert(conv@ == class_value_converter(c));
    Ok(attach(m, conv))
}

/// `Option<T>` as a return value.
fn handle_option_type_in_result(
    reg: &ConversionRegistry,
    cfg: &DialectConfig,
    ty: &TypeDescriptor,
    span: Span,
) -> (r: Result<ForeignMapping, Diagnostic>)
    requires
        rule_of(*reg, *ty, Direction::Outgoing) == Rule::OptionalOutgoing,
    ensures
        outcome(r) == resolve(*reg, *cfg, *ty, Direction::Outgoing, span),
{
    let dir = Direction::Outgoing;
    let inner = match ty {
        TypeDescriptor::Optional(t) => t,
        _ => {
            assert(false);
            return Err(fail(DiagnosticKind::NoConversion, dir, ty, span));
        },
    };
    if let Some(c) = reg.classify_as_exported_class(inner) {
        let m = match foreign_class_foreign_name(reg, &c, false, dir, inner, span) {
            Ok(m) => m,
            Err(e) => return Err(e),
        };
        let typename = optional_type_name(cfg, c.name.as_str());
        let mut out = Template::new();
        out.push_value();
        out.push_text(cat3(" != nullptr ? ", c.name.as_str(), "(").as_str());
        out.push_value();
        out.push_text(cat3(") : ", typename.as_str(), "()").as_str());
        let conv = converter(typename, out, literal_tpl("#error"));
        assert(conv@.output =~= optional_class_converter(*cfg, c).output);
        assert(conv@ == optional_class_converter(*cfg, c));
        return Ok(attach(m, conv));
    }
    let m = match map_ordinal_result_type(reg, ty, span) {
        Ok(m) => m,
        Err(e) => return Err(e),
    };
    let mi = match map_ordinal_result_type(reg, inner, span) {
        Ok(m) => m,
        Err(e) => return Err(e),
    };
    let typename = optional_type_name(cfg, mi.base.name.as_str());
    let mut out = Template::new();
    out.push_value();
    out.push_text(".is_some ? ");
    out.push_value();
    out.push_text(cat3(".val : ", typename.as_str(), "()").as_str());
    let conv = converter(typename, out, literal_tpl("#error"));
    assert(conv@.output =~= optional_out_converter(*cfg, mi@.base_name).output);
    assert(conv@ == optional_out_converter(*cfg, mi@.base_name));
    Ok(attach(m, conv))
}

/// `Option<T>` as an argument.
fn handle_option_type_in_input(
    reg: &ConversionRegistry,
    cfg: &DialectConfig,
    ty: &TypeDescriptor,
    span: Span,
) -> (r: Result<ForeignMapping, Diagnostic>)
    requires
        rule_of(*reg, *ty, Direction::Incoming) == Rule::OptionalIncoming,
    ensures
        outcome(r) == resolve(*reg, *cfg, *ty, Direction::Incoming, span),
{
    let dir = Direction::Incoming;
    let inner = match ty {
        TypeDescriptor::Optional(t) => t,
        _ => {
            assert(false);
            return Err(fail(DiagnosticKind::NoConversion, dir, ty, span));
        },
    };
    if reg.classify_as_exported_class(inner).is_some() {
        return Err(
            fail(
                DiagnosticKind::Unsupported(UnsupportedShape::OptionalClassIncoming),
                dir,
                ty,
                span,
            ),
        );
    }
    let m = match map_ordinal_input_type(reg, ty, span) {
        Ok(m) => m,
        Err(e) => return Err(e),
    };
    let mi = match map_ordinal_input_type(reg, inner, span) {
        Ok(m) => m,
        Err(e) => return Err(e),
    };
    let cn = strip_struct_prefix(m.base.name.as_str());
    let mut input = Template::new();
    input.push_text("!!");
    input.push_value();
    input.push_text(cat3(" ? ", cn.as_str(), "{*").as_str());
    input.push_value();
    input.push_text(cat3(", 1} : c_option_empty<", cn.as_str(), ">()").as_str());
    let conv = converter(
        optional_type_name(cfg, mi.base.name.as_str()),
        literal_tpl("#error"),
        input,
    );
    assert(conv@.input =~= optional_in_converter(*cfg, mi@.base_name, m@.base_name).input);
    assert(conv@ == optional_in_converter(*cfg, mi@.base_name, m@.base_name));
    Ok(attach(m, conv))
}

fn vec_converter_for(w: String) -> (r: HighLevelConverter)
    ensures
        r@ == vec_converter(w@),
{
    let out = around_tpl(cat(w.as_str(), "{").as_str(), "}");
    converter(w, out, literal_tpl("#error"))
}

fn predefined_vec_name(native: &String) -> (r: Option<&'static str>)
    ensures
        match r {
            Some(w) => predefined_vec(native@) == Some(w@),
            None => predefined_vec(native@) is None,
        },
{
    if *native == owned("CRustVecU8") {
        Some("RustVecU8")
    } else if *native == owned("CRustVecU32") {
        Some("RustVecU32")
    } else if *native == owned("CRustVecF32") {
        Some("RustVecF32")
    } else if *native == owned("CRustVecF64") {
        Some("RustVecF64")
    } else {
        None
    }
}

/// `Vec<T>` as a return value; for an exported class `T` the vector wrapper
/// is produced once per run.
fn map_result_type_vec(
    reg: &ConversionRegistry,
    cfg: &DialectConfig,
    ctx: &mut GenerationContext,
    ty: &TypeDescriptor,
    span: Span,
) -> (r: Result<ForeignMapping, Diagnostic>)
    requires
        rule_of(*reg, *ty, Direction::Outgoing) == Rule::SequenceOutgoing,
    ensures
        outcome(r) == resolve(*reg, *cfg, *ty, Direction::Outgoing, span),
        final(ctx)@ == resolve_effect(*reg, *cfg, old(ctx)@, *ty, Direction::Outgoing),
{
    let elem = match ty {
        TypeDescriptor::Sequence(t) => t,
        _ => {
            assert(false);
            return Err(fail(DiagnosticKind::NoConversion, Direction::Outgoing, ty, span));
        },
    };
    let m = match map_ordinal_result_type(reg, ty, span) {
        Ok(m) => m,
        Err(e) => return Err(e),
    };
    if let Some(c) = reg.classify_as_exported_class(elem) {
        ctx.add_vec_helper(cfg, &c);
        let conv = vec_converter_for(vec_wrapper_type_name(c.name.as_str()));
        return Ok(attach(m, conv));
    }
    match predefined_vec_name(&m.base.native) {
        Some(w) => {
            let conv = vec_converter_for(owned(w));
            Ok(attach(m, conv))
        },
        None => Err(
            fail(
                DiagnosticKind::Unsupported(UnsupportedShape::SequenceElement),
                Direction::Outgoing,
                ty,
                span,
            ),
        ),
    }
}

fn is_string(ty: &TypeDescriptor) -> (r: bool)
    ensures
        r == (ty.text() == "String"@),
{
    ty.normalized_name() == owned("String")
}

/// `Result<T, String>` as a return value.
fn handle_result_type_in_result(
    reg: &ConversionRegistry,
    cfg: &DialectConfig,
    ctx: &mut GenerationContext,
    ty: &TypeDescriptor,
    span: Span,
) -> (r: Result<ForeignMapping, Diagnostic>)
    requires
        rule_of(*reg, *ty, Direction::Outgoing) == Rule::ResultOutgoing,
    ensures
        outcome(r) == resolve(*reg, *cfg, *ty, Direction::Outgoing, span),
        final(ctx)@ == resolve_effect(*reg, *cfg, old(ctx)@, *ty, Direction::Outgoing),
    decreases ty.depth(), 0nat,
{
    let dir = Direction::Outgoing;
    let (ok, err) = match ty {
        TypeDescriptor::FallibleResult(o, e) => (o, e),
        _ => {
            assert(false);
            return Err(fail(DiagnosticKind::NoConversion, dir, ty, span));
        },
    };
    let err_is_string = is_string(err);
    if let Some(c) = reg.classify_as_exported_class(ok) {
        let b = match reg.lookup_base_by_name(RESULT_STRUCT) {
            Some(b) => b,
            None => return Err(
                fail(DiagnosticKind::MissingBaseType(owned(RESULT_STRUCT)), dir, ty, span),
            ),
        };
        if !err_is_string {
            return Err(
                fail(DiagnosticKind::Unsupported(UnsupportedShape::NonStringError), dir, ty, span),
            );
        }
        let t = variant_type_name(cfg, c.name.as_str());
        let open = cat3(c.name.as_str(), "(static_cast<", c.c_type.as_str());
        let open = cat(open.as_str(), " *>(");
        let out = result_output_tpl(t.as_str(), open.as_str(), "))}");
        let conv = converter(t, out, literal_tpl("#error"));
        assert(conv@ == class_result_converter(*cfg, c));
        return Ok(attach(plain_mapping(b), conv));
    }
    match &**ok {
        TypeDescriptor::Sequence(elem) => {
            if !err_is_string {
                return Err(
                    fail(
                        DiagnosticKind::Unsupported(UnsupportedShape::NonStringError),
                        dir,
                        ty,
                        span,
                    ),
                );
            }
            let c = match reg.classify_as_exported_class(elem) {
                Some(c) => c,
                None => return Err(
                    fail(
                        DiagnosticKind::Unsupported(UnsupportedShape::ResultSequenceElement),
                        dir,
                        ty,
                        span,
                    ),
                ),
            };
            if let Err(e) = map_type(reg, cfg, ctx, ok, dir, span) {
                return Err(e);
            }
            let m = match map_ordinal_result_type(reg, ty, span) {
                Ok(m) => m,
                Err(e) => return Err(e),
            };
            let w = vec_wrapper_type_name(c.name.as_str());
            let t = variant_type_name(cfg, w.as_str());
            let open = cat(w.as_str(), "{");
            let out = result_output_tpl(t.as_str(), open.as_str(), "}}");
            let conv = converter(t, out, literal_tpl("#error"));
            assert(conv@ == vec_result_converter(*cfg, c));
            Ok(attach(m, conv))
        },
        TypeDescriptor::Unit => {
            if !err_is_string {
                return Err(
                    fail(
                        DiagnosticKind::Unsupported(UnsupportedShape::NonStringError),
                        dir,
                        ty,
                        span,
                    ),
                );
            }
            let b = match reg.lookup_base_by_name(RESULT_STRUCT) {
                Some(b) => b,
                None => return Err(
                    fail(DiagnosticKind::MissingBaseType(owned(RESULT_STRUCT)), dir, ty, span),
                ),
            };
            let t = variant_type_name(cfg, "void *");
            let out = result_output_tpl(t.as_str(), "", "}");
            let conv = converter(t, out, literal_tpl("#error"));
            assert(conv@ == unit_result_converter(*cfg));
            Ok(attach(plain_mapping(b), conv))
        },
        _ => Err(
            fail(DiagnosticKind::Unsupported(UnsupportedShape::ResultOkType), dir, ty, span),
        ),
    }
}

/// Applies the first special rule that matches; `Ok(None)` when none does.
fn special_type(
    reg: &ConversionRegistry,
    cfg: &DialectConfig,
    ctx: &mut GenerationContext,
    ty: &TypeDescriptor,
    dir: Direction,
    span: Span,
) -> (r: Result<Option<ForeignMapping>, Diagnostic>)
    ensures
        match r {
            Ok(None) => rule_of(*reg, *ty, dir) == Rule::Ordinary,
            Ok(Some(m)) => rule_of(*reg, *ty, dir) != Rule::Ordinary && resolve(
                *reg,
                *cfg,
                *ty,
                dir,
                span,
            ) == Ok::<_, crate::mapping::DiagnosticView>(m@),
            Err(d) => rule_of(*reg, *ty, dir) != Rule::Ordinary && resolve(
                *reg,
                *cfg,
                *ty,
                dir,
                span,
            ) == Err::<crate::mapping::MappingView, _>(d@),
        },
        final(ctx)@ == resolve_effect(*reg, *cfg, old(ctx)@, *ty, dir),
    decreases ty.depth(), 1nat,
{
    let rule = select_rule(reg, ty, dir);
    let r = match rule {
        Rule::ExportedEnum => {
            let e = reg.classify_as_exported_enum(ty).unwrap();
            Ok(calc_converter_for_enum(&e))
        },
        Rule::Boolean => map_bool(reg, ty, dir, span),
        Rule::ClassReference => map_class_reference(reg, ty, dir, span),
        Rule::ClassValue => map_class_value(reg, ty, dir, span),
        Rule::ResultOutgoing => handle_result_type_in_result(reg, cfg, ctx, ty, span),
        Rule::OptionalOutgoing => handle_option_type_in_result(reg, cfg, ty, span),
        Rule::OptionalIncoming => handle_option_type_in_input(reg, cfg, ty, span),
        Rule::SequenceOutgoing => map_result_type_vec(reg, cfg, ctx, ty, span),
        Rule::Ordinary => return Ok(None),
    };
    match r {
        Ok(m) => Ok(Some(m)),
        Err(e) => Err(e),
    }
}

/// Resolves how `ty` crosses the boundary in direction `dir`. The mapping,
/// or the diagnostic, is [`resolve`]; the only change to `ctx` is the vector
/// wrapper that [`vec_wrapper_request`] names, produced once per run.
pub fn map_type(
    reg: &ConversionRegistry,
    cfg: &DialectConfig,
    ctx: &mut GenerationContext,
    ty: &TypeDescriptor,
    dir: Direction,
    span: Span,
) -> (r: Result<ForeignMapping, Diagnostic>)
    ensures
        outcome(r) == resolve(*reg, *cfg, *ty, dir, span),
        final(ctx)@ == resolve_effect(*reg, *cfg, old(ctx)@, *ty, dir),
        old(ctx)@.wf() ==> final(ctx)@.wf(),
    decreases ty.depth(), 2nat,
{
    let r = match special_type(reg, cfg, ctx, ty, dir, span) {
        Err(e) => Err(e),
        Ok(Some(m)) => Ok(m),
        Ok(None) => match dir {
            Direction::Incoming => map_ordinal_input_type(reg, ty, span),
            Direction::Outgoing => map_ordinal_result_type(reg, ty, span),
        },
    };
    proof {
        if old(ctx)@.wf() && vec_wrapper_request(*reg, *ty, dir) is Some {
            let c = vec_wrapper_request(*reg, *ty, dir)->Some_0;
            lemma_with_vec_helper_wf(old(ctx)@, *cfg, c);
        }
    }
    r
}

} // verus!
