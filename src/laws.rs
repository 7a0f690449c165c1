//! Properties of resolution that hold for every registry and type.
use vstd::prelude::*;

use crate::config::{
    optional_template, variant_template, vec_free_func, vec_helper_path, vec_wrapper_type,
    with_vec_helper, DialectConfig, RunRecord,
};
use crate::mapping::{DiagnosticView, MappingView};
use crate::registry::ConversionRegistry;
use crate::resolution::{
    around, literal, optional_in_converter, ordinal, plain, resolve, resolve_effect,
    result_output, strip_struct, unit_result_converter, value_then, vec_converter,
    vec_wrapper_request, with_converter, RESULT_STRUCT,
};
use crate::rules::{rule_of, Rule};
use crate::template::{render_parts, shape, Part, FROM_VAR};
use crate::types::{Direction, Span, TypeDescriptor};

verus! {

/// A `Result`, `Vec` or `Option` is never `bool`.
proof fn lemma_not_bool(ty: TypeDescriptor)
    requires
        ty is FallibleResult || ty is Sequence || ty is Optional,
    ensures
        ty.text() != "bool"@,
{
    reveal_strlit("bool");
    reveal_strlit("Result<");
    reveal_strlit("Vec<");
    reveal_strlit("Option<");
    match ty {
        TypeDescriptor::FallibleResult(o, e) => {
            assert(ty.text()[0] == 'R');
        },
        TypeDescriptor::Sequence(t) => {
            assert(ty.text()[0] == 'V');
        },
        TypeDescriptor::Optional(t) => {
            assert(ty.text()[0] == 'O');
        },
        _ => {},
    }
}

/// An argument never goes through the rules for fallible results or
/// sequences, and never produces a vector wrapper: a `Result` or `Vec`
/// argument that is neither an exported enum nor an exported class is left
/// to the registry, which maps it or fails.
pub proof fn incoming_skips_result_and_sequence_rules(
    reg: ConversionRegistry,
    cfg: DialectConfig,
    rec: RunRecord,
    ty: TypeDescriptor,
    span: Span,
)
    ensures
        rule_of(reg, ty, Direction::Incoming) != Rule::ResultOutgoing,
        rule_of(reg, ty, Direction::Incoming) != Rule::SequenceOutgoing,
        vec_wrapper_request(reg, ty, Direction::Incoming) is None,
        resolve_effect(reg, cfg, rec, ty, Direction::Incoming) == rec,
        (ty is FallibleResult || ty is Sequence) && reg.enum_of(ty) is None && reg.class_of(ty) is None
            ==> resolve(reg, cfg, ty, Direction::Incoming, span) == ordinal(
            reg,
            ty,
            Direction::Incoming,
            span,
        ),
{
    if ty is FallibleResult || ty is Sequence {
        lemma_not_bool(ty);
    }
}

/// An exported enum crosses as a `u32`, whatever its variants and in either
/// direction.
pub proof fn exported_enum_maps_to_u32(
    reg: ConversionRegistry,
    cfg: DialectConfig,
    ty: TypeDescriptor,
    dir: Direction,
    span: Span,
)
    requires
        reg.enum_of(ty) is Some,
    ensures
        resolve(reg, cfg, ty, dir, span) is Ok,
        resolve(reg, cfg, ty, dir, span)->Ok_0.base_native == "u32"@,
{
}

proof fn value_then_renders(tail: Seq<char>, v: Seq<char>)
    ensures
        render_parts(value_then(tail), v) == v + tail,
{
    let p = value_then(tail);
    let first = p.drop_last();
    assert(first =~= seq![Part::Value]);
    assert(first.drop_last() =~= Seq::<Part>::empty());
    assert(render_parts(first.drop_last(), v) == Seq::<char>::empty());
    assert(render_parts(first, v) =~= v);
    assert(render_parts(p, v) == render_parts(first, v) + tail);
}

/// `bool` leaves as `value != 0` and arrives as `value ? 1 : 0`.
pub proof fn bool_converters(reg: ConversionRegistry, cfg: DialectConfig, ty: TypeDescriptor, span: Span)
    requires
        ty.text() == "bool"@,
        reg.enum_of(ty) is None,
        reg.base_named("char"@) is Some,
    ensures
        resolve(reg, cfg, ty, Direction::Outgoing, span) is Ok,
        resolve(reg, cfg, ty, Direction::Outgoing, span)->Ok_0.cpp is Some,
        resolve(reg, cfg, ty, Direction::Outgoing, span)->Ok_0.cpp->Some_0.output == value_then(
            " != 0"@,
        ),
        render_parts(value_then(" != 0"@), FROM_VAR@) == FROM_VAR@ + " != 0"@,
        resolve(reg, cfg, ty, Direction::Incoming, span) is Ok,
        resolve(reg, cfg, ty, Direction::Incoming, span)->Ok_0.cpp is Some,
        resolve(reg, cfg, ty, Direction::Incoming, span)->Ok_0.cpp->Some_0.input == value_then(
            " ? 1 : 0"@,
        ),
        render_parts(value_then(" ? 1 : 0"@), FROM_VAR@) == FROM_VAR@ + " ? 1 : 0"@,
{
    value_then_renders(" != 0"@, FROM_VAR@);
    value_then_renders(" ? 1 : 0"@, FROM_VAR@);
}

/// Resolving the same return type twice in one run produces its vector
/// wrapper (helper header and native fragment) at most once: the second
/// resolution finds the path in the record and adds nothing.
pub proof fn vec_wrapper_produced_once(
    reg: ConversionRegistry,
    cfg: DialectConfig,
    rec: RunRecord,
    ty: TypeDescriptor,
)
    ensures
        ({
            let once = resolve_effect(reg, cfg, rec, ty, Direction::Outgoing);
            let twice = resolve_effect(reg, cfg, once, ty, Direction::Outgoing);
            &&& twice == once
            &&& once.headers.len() <= rec.headers.len() + 1
            &&& once.fragments.len() <= rec.fragments.len() + 1
            &&& (vec_wrapper_request(reg, ty, Direction::Outgoing) is Some && !rec.generated.contains(
                vec_helper_path(
                    cfg.output_dir@,
                    vec_wrapper_request(reg, ty, Direction::Outgoing)->Some_0.name@,
                ),
            )) ==> {
                &&& once.headers.len() == rec.headers.len() + 1
                &&& once.fragments.len() == rec.fragments.len() + 1
            }
        }),
{
    match vec_wrapper_request(reg, ty, Direction::Outgoing) {
        Some(c) => {
            let path = vec_helper_path(cfg.output_dir@, c.name@);
            let once = with_vec_helper(rec, cfg, c);
            if !rec.generated.contains(path) {
                assert(once.generated[once.generated.len() - 1] == path);
            }
            assert(once.generated.contains(path));
        },
        None => {},
    }
}

/// What two resolutions have in common when their configurations differ
/// only in the optional dialect: the same outcome kind, the same error, the
/// same base type and low-level snippet, and converters of the same shape.
pub open spec fn same_but_names(
    a: Result<MappingView, DiagnosticView>,
    b: Result<MappingView, DiagnosticView>,
) -> bool {
    &&& (a is Err) == (b is Err)
    &&& a is Err ==> a == b
    &&& a is Ok ==> {
        let (x, y) = (a->Ok_0, b->Ok_0);
        &&& x.base_name == y.base_name
        &&& x.base_native == y.base_native
        &&& x.c_converter == y.c_converter
        &&& (x.cpp is Some) == (y.cpp is Some)
        &&& x.cpp is Some ==> {
            &&& shape(x.cpp->Some_0.output) == shape(y.cpp->Some_0.output)
            &&& shape(x.cpp->Some_0.input) == shape(y.cpp->Some_0.input)
        }
    }
}

/// Switching the optional dialect changes only type names in the mapping,
/// never which expressions branch on what: the converters keep their
/// shape, and every other field is unchanged.
pub proof fn optional_dialect_changes_names_only(
    reg: ConversionRegistry,
    cfg1: DialectConfig,
    cfg2: DialectConfig,
    ty: TypeDescriptor,
    dir: Direction,
    span: Span,
)
    requires
        cfg1.variant == cfg2.variant,
    ensures
        same_but_names(resolve(reg, cfg1, ty, dir, span), resolve(reg, cfg2, ty, dir, span)),
        rule_of(reg, ty, dir) != Rule::OptionalOutgoing && rule_of(reg, ty, dir)
            != Rule::OptionalIncoming ==> resolve(reg, cfg1, ty, dir, span) == resolve(
            reg,
            cfg2,
            ty,
            dir,
            span,
        ),
    decreases ty,
{
    let a = resolve(reg, cfg1, ty, dir, span);
    let b = resolve(reg, cfg2, ty, dir, span);
    match rule_of(reg, ty, dir) {
        Rule::ResultOutgoing => {
            match ty {
                TypeDescriptor::FallibleResult(ok, err) => {
                    optional_dialect_changes_names_only(reg, cfg1, cfg2, *ok, Direction::Outgoing, span);
                },
                _ => {},
            }
        },
        Rule::OptionalOutgoing | Rule::OptionalIncoming => {
            if a is Ok {
                let (x, y) = (a->Ok_0, b->Ok_0);
                if x.cpp is Some {
                    assert(shape(x.cpp->Some_0.output) =~= shape(y.cpp->Some_0.output));
                    assert(shape(x.cpp->Some_0.input) =~= shape(y.cpp->Some_0.input));
                }
            }
        },
        _ => {},
    }
}

/// `Result<(), String>` as a return value maps to the result struct, with a
/// tagged union of an opaque pointer and a string that branches on the
/// success flag; its Incoming side is marked unsupported.
pub proof fn unit_result_is_pointer_or_string(
    reg: ConversionRegistry,
    cfg: DialectConfig,
    ty: TypeDescriptor,
    ok: TypeDescriptor,
    err: TypeDescriptor,
    span: Span,
)
    requires
        ty == TypeDescriptor::FallibleResult(Box::new(ok), Box::new(err)),
        ok is Unit,
        err.text() == "String"@,
        reg.enum_of(ty) is None,
        reg.class_of(ty) is None,
        reg.class_of(ok) is None,
        reg.base_named(RESULT_STRUCT@) is Some,
    ensures
        resolve(reg, cfg, ty, Direction::Outgoing, span) == Ok::<MappingView, DiagnosticView>(
            with_converter(plain(reg.base_named(RESULT_STRUCT@)->Some_0), unit_result_converter(cfg)),
        ),
        unit_result_converter(cfg).typename == variant_template(cfg.variant) + "<"@ + "void *"@
            + ", RustString>"@,
        unit_result_converter(cfg).output == result_output(
            unit_result_converter(cfg).typename,
            ""@,
            "}"@,
        ),
        unit_result_converter(cfg).input == literal("#error"@),
{
    lemma_not_bool(ty);
}

/// `Vec<C>` of an exported class `C`, as a return value that the registry
/// maps, gets the wrapper `RustForeignVec<C's name>`, built from the ABI
/// value, with its Incoming side marked unsupported; the run then holds the
/// wrapper's header path, with one new header and one new native fragment
/// where the path was new.
pub proof fn vec_of_class_gets_wrapper(
    reg: ConversionRegistry,
    cfg: DialectConfig,
    rec: RunRecord,
    ty: TypeDescriptor,
    elem: TypeDescriptor,
    span: Span,
)
    requires
        ty == TypeDescriptor::Sequence(Box::new(elem)),
        reg.class_of(elem) is Some,
        reg.enum_of(ty) is None,
        reg.class_of(ty) is None,
        reg.conversion_of(ty, Direction::Outgoing) is Some,
    ensures
        ({
            let c = reg.class_of(elem)->Some_0;
            let w = vec_wrapper_type(c.name@);
            let path = vec_helper_path(cfg.output_dir@, c.name@);
            let after = resolve_effect(reg, cfg, rec, ty, Direction::Outgoing);
            &&& resolve(reg, cfg, ty, Direction::Outgoing, span) == Ok::<
                MappingView,
                DiagnosticView,
            >(with_converter(plain(reg.conversion_of(ty, Direction::Outgoing)->Some_0), vec_converter(w)))
            &&& vec_converter(w).output == around(w + "{"@, "}"@)
            &&& vec_converter(w).input == literal("#error"@)
            &&& after.generated.contains(path)
            &&& !rec.generated.contains(path) ==> {
                &&& after.headers == rec.headers.push((path, w, vec_free_func(c.name@), c.name@))
                &&& after.fragments == rec.fragments.push((vec_free_func(c.name@), c.self_type@))
            }
        }),
{
    lemma_not_bool(ty);
    let c = reg.class_of(elem)->Some_0;
    let path = vec_helper_path(cfg.output_dir@, c.name@);
    let after = with_vec_helper(rec, cfg, c);
    if !rec.generated.contains(path) {
        assert(after.generated[after.generated.len() - 1] == path);
    }
}

/// `Option<T>` as an argument, where `T` is no exported class and the
/// registry maps both types, keeps the option's base type and converts a
/// foreign optional into the ABI struct (its name without `struct `): the
/// value and a presence flag of 1 when present, the struct's empty value
/// otherwise; its Outgoing side is marked unsupported.
pub proof fn incoming_optional_builds_abi_struct(
    reg: ConversionRegistry,
    cfg: DialectConfig,
    ty: TypeDescriptor,
    inner: TypeDescriptor,
    span: Span,
)
    requires
        ty == TypeDescriptor::Optional(Box::new(inner)),
        reg.enum_of(ty) is None,
        reg.class_of(ty) is None,
        reg.class_of(inner) is None,
        reg.conversion_of(ty, Direction::Incoming) is Some,
        reg.conversion_of(inner, Direction::Incoming) is Some,
    ensures
        ({
            let b = reg.conversion_of(ty, Direction::Incoming)->Some_0;
            let bi = reg.conversion_of(inner, Direction::Incoming)->Some_0;
            let cn = strip_struct(b.name@);
            let conv = optional_in_converter(cfg, bi.name@, b.name@);
            &&& resolve(reg, cfg, ty, Direction::Incoming, span) == Ok::<
                MappingView,
                DiagnosticView,
            >(with_converter(plain(b), conv))
            &&& conv.typename == optional_template(cfg.optional) + "<"@ + bi.name@ + ">"@
            &&& conv.input == seq![
                Part::Text("!!"@),
                Part::Value,
                Part::Text(" ? "@ + cn + "{*"@),
                Part::Value,
                Part::Text(", 1} : c_option_empty<"@ + cn + ">()"@),
            ]
            &&& conv.output == literal("#error"@)
        }),
{
    lemma_not_bool(ty);
}

} // verus!
