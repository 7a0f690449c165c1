use cpp_type_map::config::{
    join_dir, DialectConfig, GenerationContext, OptionalDialect, VariantDialect,
};
use cpp_type_map::engine::{calc_converter_for_enum, map_type};
use cpp_type_map::mapping::{Diagnostic, DiagnosticKind, ForeignMapping, UnsupportedShape};
use cpp_type_map::registry::{
    ConversionRegistry, ExportedClassInfo, ExportedEnumInfo, ForeignBaseType,
    RegisteredConversion,
};
use cpp_type_map::rules::{select_rule, Rule};
use cpp_type_map::template::Template;
use cpp_type_map::types::{Direction, Span, TypeDescriptor};

fn s(x: &str) -> String {
    x.to_string()
}

fn base(name: &str, native: &str) -> ForeignBaseType {
    ForeignBaseType { name: s(name), native: s(native) }
}

fn conv(rust_type: &str, name: &str, native: &str) -> RegisteredConversion {
    RegisteredConversion { rust_type: s(rust_type), base: base(name, native) }
}

fn registry() -> ConversionRegistry {
    ConversionRegistry {
        classes: vec![ExportedClassInfo { name: s("Foo"), c_type: s("FooOpaque"), self_type: s("Foo") }],
        enums: vec![ExportedEnumInfo { name: s("Color"), self_type: s("Color") }],
        base_types: vec![
            base("char", "i8"),
            base("const FooOpaque *", "*const FooOpaque"),
            base("FooOpaque *", "*mut FooOpaque"),
            base("struct CResultObjectString", "CResultObjectString"),
        ],
        incoming: vec![
            conv("Option<u32>", "struct CRustOptionU32", "CRustOptionU32"),
            conv("u32", "uint32_t", "u32"),
            conv("Result<u32, String>", "struct CResultU32", "CResultU32"),
        ],
        outgoing: vec![
            conv("Vec<Foo>", "struct CRustForeignVec", "CRustForeignVec"),
            conv("Result<Vec<Foo>, String>", "struct CResultCRustForeignVecString", "CResultCRustForeignVecString"),
            conv("Option<u32>", "struct CRustOptionU32", "CRustOptionU32"),
            conv("u32", "uint32_t", "u32"),
            conv("Vec<u8>", "struct CRustVecU8", "CRustVecU8"),
            conv("Vec<i16>", "struct CRustVecI16", "CRustVecI16"),
        ],
    }
}

fn config(optional: OptionalDialect, variant: VariantDialect) -> DialectConfig {
    DialectConfig { optional, variant, output_dir: s("out"), namespace_name: s("ns") }
}

fn std_config() -> DialectConfig {
    config(OptionalDialect::Std17, VariantDialect::Std17)
}

fn prim(n: &str) -> TypeDescriptor {
    TypeDescriptor::Primitive(s(n))
}

fn named(n: &str) -> TypeDescriptor {
    TypeDescriptor::Named(s(n))
}

fn b(t: TypeDescriptor) -> Box<TypeDescriptor> {
    Box::new(t)
}

const SPAN: Span = Span { lo: 3, hi: 9 };

fn resolve(ty: &TypeDescriptor, dir: Direction) -> Result<ForeignMapping, Diagnostic> {
    let mut ctx = GenerationContext::new();
    map_type(&registry(), &std_config(), &mut ctx, ty, dir, SPAN)
}

fn out_text(m: &ForeignMapping) -> String {
    m.cpp_converter.as_ref().unwrap().output_converter.text()
}

fn in_text(m: &ForeignMapping) -> String {
    m.cpp_converter.as_ref().unwrap().input_converter.text()
}

fn typename(m: &ForeignMapping) -> String {
    m.cpp_converter.as_ref().unwrap().typename.clone()
}

#[test]
fn normalized_names() {
    let t = TypeDescriptor::FallibleResult(
        b(TypeDescriptor::Sequence(b(TypeDescriptor::Reference(b(named("Foo")), false)))),
        b(TypeDescriptor::Optional(b(TypeDescriptor::Reference(b(prim("u8")), true)))),
    );
    assert_eq!(t.normalized_name(), "Result<Vec<&Foo>, Option<&mut u8>>");
    assert_eq!(TypeDescriptor::Unit.normalized_name(), "()");
}

#[test]
fn bool_outgoing_and_incoming() {
    let out = resolve(&prim("bool"), Direction::Outgoing).unwrap();
    assert_eq!(out.base.name, "char");
    assert_eq!(typename(&out), "bool");
    assert_eq!(out_text(&out), "{from_var} != 0");
    assert!(out_text(&out).contains("!= 0"));
    let inc = resolve(&prim("bool"), Direction::Incoming).unwrap();
    assert_eq!(in_text(&inc), "{from_var} ? 1 : 0");
    assert!(in_text(&inc).contains("? 1 : 0"));
}

#[test]
fn bool_without_char_base_is_missing_base_type() {
    let mut reg = registry();
    reg.base_types.remove(0);
    let mut ctx = GenerationContext::new();
    let e = map_type(&reg, &std_config(), &mut ctx, &prim("bool"), Direction::Outgoing, SPAN).unwrap_err();
    assert!(matches!(&e.kind, DiagnosticKind::MissingBaseType(n) if n == "char"));
    assert_eq!(e.message(), "type char unknown");
    assert_eq!(e.span, SPAN);
}

#[test]
fn exported_enum_is_u32_both_ways() {
    for dir in [Direction::Incoming, Direction::Outgoing] {
        let m = resolve(&named("Color"), dir).unwrap();
        assert_eq!(m.base.native, "u32");
        assert_eq!(m.base.name, "Color");
        assert!(m.cpp_converter.is_none());
        assert_eq!(m.c_converter, "\n        uint32_t {to_var} = {from_var};\n");
    }
    let direct = calc_converter_for_enum(&ExportedEnumInfo { name: s("E"), self_type: s("E") });
    assert_eq!(direct.base.native, "u32");
}

#[test]
fn class_reference_outgoing() {
    let m = resolve(&TypeDescriptor::Reference(b(named("Foo")), false), Direction::Outgoing).unwrap();
    assert_eq!(m.base.name, "const FooOpaque *");
    assert_eq!(typename(&m), "FooRef");
    assert_eq!(out_text(&m), "FooRef{{from_var}}");
    assert_eq!(in_text(&m), "UNREACHABLE");
}

#[test]
fn class_reference_incoming() {
    let m = resolve(&TypeDescriptor::Reference(b(named("Foo")), false), Direction::Incoming).unwrap();
    assert_eq!(typename(&m), "const Foo &");
    assert_eq!(in_text(&m), "static_cast<const FooOpaque *>({from_var})");
    assert_eq!(out_text(&m), "UNREACHABLE");
}

#[test]
fn class_by_value() {
    let m = resolve(&named("Foo"), Direction::Outgoing).unwrap();
    assert_eq!(m.base.name, "FooOpaque *");
    assert_eq!(typename(&m), "Foo");
    assert_eq!(out_text(&m), "Foo({from_var})");
    assert_eq!(in_text(&m), "{from_var}.release()");
}

#[test]
fn result_of_unit_and_string() {
    let ty = TypeDescriptor::FallibleResult(b(TypeDescriptor::Unit), b(named("String")));
    let m = resolve(&ty, Direction::Outgoing).unwrap();
    assert_eq!(m.base.name, "struct CResultObjectString");
    assert_eq!(typename(&m), "std::variant<void *, RustString>");
    assert_eq!(
        out_text(&m),
        "{from_var}.is_ok != 0 ?\n std::variant<void *, RustString>{{from_var}.data.ok} :\n std::variant<void *, RustString>{RustString{{from_var}.data.err}}"
    );
    assert_eq!(in_text(&m), "#error");
}

#[test]
fn result_of_class_boost_variant() {
    let ty = TypeDescriptor::FallibleResult(b(named("Foo")), b(named("String")));
    let mut ctx = GenerationContext::new();
    let cfg = config(OptionalDialect::Std17, VariantDialect::Boost);
    let m = map_type(&registry(), &cfg, &mut ctx, &ty, Direction::Outgoing, SPAN).unwrap();
    assert_eq!(typename(&m), "boost::variant<Foo, RustString>");
    assert_eq!(
        out_text(&m),
        "{from_var}.is_ok != 0 ?\n boost::variant<Foo, RustString>{Foo(static_cast<FooOpaque *>({from_var}.data.ok))} :\n boost::variant<Foo, RustString>{RustString{{from_var}.data.err}}"
    );
    assert_eq!(in_text(&m), "#error");
}

#[test]
fn result_with_non_string_error_is_unsupported() {
    let ty = TypeDescriptor::FallibleResult(b(TypeDescriptor::Unit), b(prim("u32")));
    let e = resolve(&ty, Direction::Outgoing).unwrap_err();
    assert!(matches!(e.kind, DiagnosticKind::Unsupported(UnsupportedShape::NonStringError)));
    assert_eq!(e.type_text, "Result<(), u32>");
}

#[test]
fn result_of_plain_type_is_unsupported() {
    let ty = TypeDescriptor::FallibleResult(b(prim("u32")), b(named("String")));
    let e = resolve(&ty, Direction::Outgoing).unwrap_err();
    assert!(matches!(e.kind, DiagnosticKind::Unsupported(UnsupportedShape::ResultOkType)));
}

#[test]
fn result_of_vec_of_class() {
    let ty = TypeDescriptor::FallibleResult(b(TypeDescriptor::Sequence(b(named("Foo")))), b(named("String")));
    let mut ctx = GenerationContext::new();
    let m = map_type(&registry(), &std_config(), &mut ctx, &ty, Direction::Outgoing, SPAN).unwrap();
    assert_eq!(m.base.name, "struct CResultCRustForeignVecString");
    assert_eq!(typename(&m), "std::variant<RustForeignVecFoo, RustString>");
    assert_eq!(
        out_text(&m),
        "{from_var}.is_ok != 0 ?\n std::variant<RustForeignVecFoo, RustString>{RustForeignVecFoo{{from_var}.data.ok}} :\n std::variant<RustForeignVecFoo, RustString>{RustString{{from_var}.data.err}}"
    );
    assert_eq!(in_text(&m), "#error");
    assert_eq!(ctx.helper_headers.len(), 1);
    assert_eq!(ctx.native_code.len(), 1);
}

#[test]
fn incoming_result_goes_to_registry() {
    let ty = TypeDescriptor::FallibleResult(b(prim("u32")), b(named("String")));
    let m = resolve(&ty, Direction::Incoming).unwrap();
    assert_eq!(m.base.name, "struct CResultU32");
    assert!(m.cpp_converter.is_none());
    assert_eq!(select_rule(&registry(), &ty, Direction::Incoming), Rule::Ordinary);
}

#[test]
fn incoming_vec_fails_without_registry_entry() {
    let ty = TypeDescriptor::Sequence(b(named("Foo")));
    let mut ctx = GenerationContext::new();
    let e = map_type(&registry(), &std_config(), &mut ctx, &ty, Direction::Incoming, SPAN).unwrap_err();
    assert!(matches!(e.kind, DiagnosticKind::NoConversion));
    assert_eq!(e.direction, Direction::Incoming);
    assert_eq!(e.message(), "Do not know conversion from foreign to such rust type 'Vec<Foo>'");
    assert!(ctx.helper_headers.is_empty());
    assert!(ctx.native_code.is_empty());
}

#[test]
fn vec_of_class_first_time() {
    let ty = TypeDescriptor::Sequence(b(named("Foo")));
    let mut ctx = GenerationContext::new();
    let m = map_type(&registry(), &std_config(), &mut ctx, &ty, Direction::Outgoing, SPAN).unwrap();
    assert_eq!(typename(&m), "RustForeignVecFoo");
    assert_eq!(out_text(&m), "RustForeignVecFoo{{from_var}}");
    assert_eq!(in_text(&m), "#error");
    assert_eq!(ctx.generated_helper_files, vec![s("out/RustForeignVecFoo.h")]);
    assert_eq!(ctx.helper_headers.len(), 1);
    let h = &ctx.helper_headers[0];
    assert_eq!(h.path, "out/RustForeignVecFoo.h");
    assert_eq!(h.wrapper_type, "RustForeignVecFoo");
    assert_eq!(h.free_func, "RustForeignVecFoo_free");
    assert_eq!(h.class_name, "Foo");
    assert_eq!(ctx.native_code.len(), 1);
    assert_eq!(ctx.native_code[0].func_name, "RustForeignVecFoo_free");
    assert_eq!(ctx.native_code[0].self_type, "Foo");
}

#[test]
fn vec_of_class_twice_is_generated_once() {
    let ty = TypeDescriptor::Sequence(b(named("Foo")));
    let mut ctx = GenerationContext::new();
    let first = map_type(&registry(), &std_config(), &mut ctx, &ty, Direction::Outgoing, SPAN).unwrap();
    let second = map_type(&registry(), &std_config(), &mut ctx, &ty, Direction::Outgoing, SPAN).unwrap();
    assert_eq!(out_text(&first), out_text(&second));
    assert_eq!(ctx.generated_helper_files.len(), 1);
    assert_eq!(ctx.helper_headers.len(), 1);
    assert_eq!(ctx.native_code.len(), 1);
}

#[test]
fn vec_of_primitive_uses_predefined_wrapper() {
    let m = resolve(&TypeDescriptor::Sequence(b(prim("u8"))), Direction::Outgoing).unwrap();
    assert_eq!(typename(&m), "RustVecU8");
    assert_eq!(out_text(&m), "RustVecU8{{from_var}}");
    let e = resolve(&TypeDescriptor::Sequence(b(prim("i16"))), Direction::Outgoing).unwrap_err();
    assert!(matches!(e.kind, DiagnosticKind::Unsupported(UnsupportedShape::SequenceElement)));
}

#[test]
fn optional_u32_incoming() {
    let m = resolve(&TypeDescriptor::Optional(b(prim("u32"))), Direction::Incoming).unwrap();
    assert_eq!(m.base.name, "struct CRustOptionU32");
    assert_eq!(typename(&m), "std::optional<uint32_t>");
    assert_eq!(
        in_text(&m),
        "!!{from_var} ? CRustOptionU32{*{from_var}, 1} : c_option_empty<CRustOptionU32>()"
    );
    assert_eq!(out_text(&m), "#error");
}

#[test]
fn optional_u32_outgoing() {
    let m = resolve(&TypeDescriptor::Optional(b(prim("u32"))), Direction::Outgoing).unwrap();
    assert_eq!(typename(&m), "std::optional<uint32_t>");
    assert_eq!(out_text(&m), "{from_var}.is_some ? {from_var}.val : std::optional<uint32_t>()");
}

#[test]
fn optional_class_outgoing() {
    let m = resolve(&TypeDescriptor::Optional(b(named("Foo"))), Direction::Outgoing).unwrap();
    assert_eq!(m.base.name, "FooOpaque *");
    assert_eq!(typename(&m), "std::optional<Foo>");
    assert_eq!(out_text(&m), "{from_var} != nullptr ? Foo({from_var}) : std::optional<Foo>()");
}

#[test]
fn optional_class_incoming_is_unsupported() {
    let e = resolve(&TypeDescriptor::Optional(b(named("Foo"))), Direction::Incoming).unwrap_err();
    assert!(matches!(e.kind, DiagnosticKind::Unsupported(UnsupportedShape::OptionalClassIncoming)));
}

#[test]
fn optional_dialect_switch_keeps_structure() {
    let ty = TypeDescriptor::Optional(b(prim("u32")));
    let mut ctx = GenerationContext::new();
    let boost = config(OptionalDialect::Boost, VariantDialect::Std17);
    let a = map_type(&registry(), &std_config(), &mut ctx, &ty, Direction::Outgoing, SPAN).unwrap();
    let z = map_type(&registry(), &boost, &mut ctx, &ty, Direction::Outgoing, SPAN).unwrap();
    assert_eq!(typename(&z), "boost::optional<uint32_t>");
    assert_eq!(out_text(&z), "{from_var}.is_some ? {from_var}.val : boost::optional<uint32_t>()");
    assert_eq!(out_text(&a).replace("std::", "boost::"), out_text(&z));
    assert_eq!(a.base.name, z.base.name);
}

#[test]
fn unknown_type_is_no_conversion() {
    let e = resolve(&named("Bar"), Direction::Outgoing).unwrap_err();
    assert!(matches!(e.kind, DiagnosticKind::NoConversion));
    assert_eq!(e.message(), "Do not know conversion from such rust type 'Bar' to foreign");
    assert_eq!(resolve(&prim("u32"), Direction::Outgoing).unwrap().base.name, "uint32_t");
}

#[test]
fn template_render_substitutes_every_point() {
    let mut t = Template::new();
    t.push_text("f(");
    t.push_value();
    t.push_text(", ");
    t.push_value();
    t.push_text(")");
    assert_eq!(t.render("x"), "f(x, x)");
    assert_eq!(Template::literal("#error").render("x"), "#error");
}

#[test]
fn join_dir_handles_separators() {
    assert_eq!(join_dir("out", "a.h"), "out/a.h");
    assert_eq!(join_dir("out/", "a.h"), "out/a.h");
    assert_eq!(join_dir("", "a.h"), "a.h");
}

#[test]
fn unsupported_message_names_the_type() {
    let ty = TypeDescriptor::FallibleResult(b(TypeDescriptor::Unit), b(prim("u32")));
    let e = resolve(&ty, Direction::Outgoing).unwrap_err();
    assert_eq!(
        e.message(),
        "not supported: only String is supported as the error type ('Result<(), u32>')"
    );
}

#[test]
fn optional_incoming_without_struct_prefix() {
    let mut reg = registry();
    reg.incoming[0] = conv("Option<u32>", "COptU32", "COptU32");
    let mut ctx = GenerationContext::new();
    let cfg = config(OptionalDialect::Boost, VariantDialect::Std17);
    let ty = TypeDescriptor::Optional(b(prim("u32")));
    let m = map_type(&reg, &cfg, &mut ctx, &ty, Direction::Incoming, SPAN).unwrap();
    assert_eq!(typename(&m), "boost::optional<uint32_t>");
    assert_eq!(in_text(&m), "!!{from_var} ? COptU32{*{from_var}, 1} : c_option_empty<COptU32>()");
}

#[test]
fn class_without_pointer_base_is_missing_base_type() {
    let mut reg = registry();
    reg.base_types.retain(|t| t.name != "FooOpaque *");
    let mut ctx = GenerationContext::new();
    let e = map_type(&reg, &std_config(), &mut ctx, &named("Foo"), Direction::Incoming, SPAN).unwrap_err();
    assert!(matches!(&e.kind, DiagnosticKind::UnknownClass(n) if n == "Foo"));
    assert_eq!(e.type_text, "Foo");
    assert_eq!(e.message(), "type Foo unknown");
}

#[test]
fn mutable_reference_to_class_is_not_special() {
    let ty = TypeDescriptor::Reference(b(named("Foo")), true);
    assert_eq!(select_rule(&registry(), &ty, Direction::Incoming), Rule::Ordinary);
    let e = resolve(&ty, Direction::Incoming).unwrap_err();
    assert!(matches!(e.kind, DiagnosticKind::NoConversion));
}
