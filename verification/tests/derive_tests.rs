use qemu_api_macros::decl::{FieldDecl, FieldVisibility, RecordData, RecordDecl};
use qemu_api_macros::diag::{Diagnostic, ErrorKind};
use qemu_api_macros::fragment::{render_output, DeriveOutput, Fragment};
use qemu_api_macros::object::derive_object;
use qemu_api_macros::offsets::derive_offsets;

fn field(vis: FieldVisibility, name: &str, ty: &str) -> FieldDecl {
    FieldDecl { vis, name: name.to_string(), ty: ty.to_string() }
}

fn record(name: &str, attrs: Vec<&str>, data: RecordData) -> RecordDecl {
    RecordDecl {
        name: name.to_string(),
        attrs: attrs.into_iter().map(|a| a.to_string()).collect(),
        data,
    }
}

fn expect_fragment(out: DeriveOutput) -> Fragment {
    match out {
        DeriveOutput::Fragment(f) => f,
        DeriveOutput::Diagnostic(d) => {
            panic!("expected a fragment, got diagnostic: {}", d.message)
        }
    }
}

fn expect_diagnostic(out: DeriveOutput) -> Diagnostic {
    match out {
        DeriveOutput::Diagnostic(d) => d,
        DeriveOutput::Fragment(_) => panic!("expected a diagnostic, got a fragment"),
    }
}

#[test]
fn object_success_names_record_and_parent_slot() {
    let d = record(
        "Foo",
        vec!["repr(C)"],
        RecordData::NamedFields(vec![field(FieldVisibility::Public, "parent", "Wrapper<Bar>")]),
    );
    let f = expect_fragment(derive_object(&d));
    match f {
        Fragment::Registration { record_name, parent_field } => {
            assert_eq!(record_name, "Foo");
            assert_eq!(parent_field, "parent");
        }
        Fragment::FieldTable { .. } => panic!("expected a registration fragment"),
    }
}

#[test]
fn object_success_renders_assertion_and_initializer() {
    let d = record(
        "Foo",
        vec!["repr(C)"],
        RecordData::NamedFields(vec![field(FieldVisibility::Public, "parent", "Wrapper<Bar>")]),
    );
    let text = render_output(&derive_object(&d));
    assert_eq!(
        text,
        "::qemu_api::assert_field_type!(Foo, parent, \
         ::qemu_api::qom::ParentField<<Foo as ::qemu_api::qom::ObjectImpl>::ParentType>); \
         ::qemu_api::module_init! { MODULE_INIT_QOM => unsafe { \
         ::qemu_api::bindings::type_register_static(&<Foo as \
         ::qemu_api::qom::ObjectImpl>::TYPE_INFO); } }"
    );
    assert_eq!(text.matches("assert_field_type!").count(), 1);
    assert_eq!(text.matches("module_init!").count(), 1);
    assert_eq!(text.matches("MODULE_INIT_QOM").count(), 1);
}

#[test]
fn offsets_success_preserves_fields_in_order() {
    let d = record(
        "Baz",
        vec!["repr(C)"],
        RecordData::NamedFields(vec![
            field(FieldVisibility::Public, "parent", "Wrapper<Bar>"),
            field(FieldVisibility::Private, "x", "i32"),
        ]),
    );
    let f = expect_fragment(derive_offsets(&d));
    match f {
        Fragment::FieldTable { record_name, fields } => {
            assert_eq!(record_name, "Baz");
            assert_eq!(fields.len(), 2);
            assert_eq!(fields[0].vis, FieldVisibility::Public);
            assert_eq!(fields[0].name, "parent");
            assert_eq!(fields[0].ty, "Wrapper<Bar>");
            assert_eq!(fields[1].vis, FieldVisibility::Private);
            assert_eq!(fields[1].name, "x");
            assert_eq!(fields[1].ty, "i32");
        }
        Fragment::Registration { .. } => panic!("expected a field-table fragment"),
    }
}

#[test]
fn offsets_success_renders_field_table() {
    let d = record(
        "Baz",
        vec!["repr(C)"],
        RecordData::NamedFields(vec![
            field(FieldVisibility::Public, "parent", "Wrapper<Bar>"),
            field(FieldVisibility::Private, "x", "i32"),
        ]),
    );
    let text = render_output(&derive_offsets(&d));
    assert_eq!(
        text,
        "::qemu_api::with_offsets! { struct Baz { pub parent: Wrapper<Bar>, x: i32, } }"
    );
}

#[test]
fn offsets_empty_record_renders_empty_table() {
    let d = record("Empty", vec!["repr(C)"], RecordData::NamedFields(vec![]));
    let text = render_output(&derive_offsets(&d));
    assert_eq!(text, "::qemu_api::with_offsets! { struct Empty { } }");
}

#[test]
fn missing_attribute_rejects_both_derivations() {
    let d = record(
        "Qux",
        vec![],
        RecordData::NamedFields(vec![field(FieldVisibility::Public, "parent", "Wrapper<Bar>")]),
    );
    let obj = expect_diagnostic(derive_object(&d));
    assert_eq!(obj.kind, ErrorKind::Attribute);
    assert_eq!(obj.message, "#[repr(C)] required for #[derive(Object)]");
    assert_eq!(obj.location, "Qux");
    let off = expect_diagnostic(derive_offsets(&d));
    assert_eq!(off.kind, ErrorKind::Attribute);
    assert_eq!(off.message, "#[repr(C)] required for #[derive(offsets)]");
    assert_eq!(off.location, "Qux");
}

#[test]
fn missing_attribute_rejects_regardless_of_shape() {
    let d = record("Qux", vec![], RecordData::TupleFields);
    let obj = expect_diagnostic(derive_object(&d));
    assert_eq!(obj.kind, ErrorKind::Attribute);
    assert_eq!(obj.location, "Qux");
}

#[test]
fn other_attribute_does_not_count_as_layout_marker() {
    let d = record(
        "Qux",
        vec!["repr(Rust)", "derive(Debug)"],
        RecordData::NamedFields(vec![field(FieldVisibility::Private, "x", "u8")]),
    );
    let obj = expect_diagnostic(derive_object(&d));
    assert_eq!(obj.kind, ErrorKind::Attribute);
}

#[test]
fn tuple_record_rejected_with_shape_error() {
    let d = record("Pair", vec!["repr(C)"], RecordData::TupleFields);
    let obj = expect_diagnostic(derive_object(&d));
    assert_eq!(obj.kind, ErrorKind::Shape);
    assert_eq!(obj.message, "Named fields required for #[derive(Object)]");
    assert_eq!(obj.location, "Pair");
    let off = expect_diagnostic(derive_offsets(&d));
    assert_eq!(off.kind, ErrorKind::Shape);
    assert_eq!(off.message, "Named fields required for #[derive(offsets)]");
    assert_eq!(off.location, "Pair");
}

#[test]
fn enumerated_record_rejected_with_shape_error() {
    let d = record("Choice", vec!["repr(C)"], RecordData::Enumerated);
    let obj = expect_diagnostic(derive_object(&d));
    assert_eq!(obj.kind, ErrorKind::Shape);
    let off = expect_diagnostic(derive_offsets(&d));
    assert_eq!(off.kind, ErrorKind::Shape);
}

#[test]
fn unit_and_union_records_rejected_with_shape_error() {
    let unit = record("Marker", vec!["repr(C)"], RecordData::UnitFields);
    assert_eq!(expect_diagnostic(derive_offsets(&unit)).kind, ErrorKind::Shape);
    let un = record("Overlay", vec!["repr(C)"], RecordData::UnionFields);
    assert_eq!(expect_diagnostic(derive_offsets(&un)).kind, ErrorKind::Shape);
}

#[test]
fn diagnostic_renders_as_compile_error() {
    let d = record("Qux", vec![], RecordData::TupleFields);
    let text = render_output(&derive_offsets(&d));
    assert_eq!(
        text,
        "::core::compile_error!(\"#[repr(C)] required for #[derive(offsets)]\");"
    );
}

#[test]
fn attribute_checked_before_shape() {
    // Both checks would fail; the attribute check is evaluated first.
    let d = record("Qux", vec![], RecordData::Enumerated);
    let obj = expect_diagnostic(derive_object(&d));
    assert_eq!(obj.kind, ErrorKind::Attribute);
    let off = expect_diagnostic(derive_offsets(&d));
    assert_eq!(off.kind, ErrorKind::Attribute);
}

#[test]
fn field_order_preserved_for_longer_records() {
    let d = record(
        "Device",
        vec!["repr(C)"],
        RecordData::NamedFields(vec![
            field(FieldVisibility::Public, "parent", "Wrapper<Base>"),
            field(FieldVisibility::Private, "count", "u64"),
            field(FieldVisibility::Public, "flags", "u32"),
            field(FieldVisibility::Private, "label", "[u8; 16]"),
        ]),
    );
    let f = expect_fragment(derive_offsets(&d));
    match f {
        Fragment::FieldTable { fields, .. } => {
            let names: Vec<&str> = fields.iter().map(|f| f.name.as_str()).collect();
            assert_eq!(names, vec!["parent", "count", "flags", "label"]);
        }
        Fragment::Registration { .. } => panic!("expected a field-table fragment"),
    }
}

#[test]
fn layout_attribute_probe_matches_attribute_list() {
    let with = record("Foo", vec!["derive(Debug)", "repr(C)"], RecordData::UnitFields);
    assert!(qemu_api_macros::validate::has_layout_attribute(&with));
    let without = record("Foo", vec!["derive(Debug)"], RecordData::UnitFields);
    assert!(!qemu_api_macros::validate::has_layout_attribute(&without));
    let empty = record("Foo", vec![], RecordData::UnitFields);
    assert!(!qemu_api_macros::validate::has_layout_attribute(&empty));
}

#[test]
fn parent_field_resolver_projects_first_field() {
    let fields = vec![
        field(FieldVisibility::Public, "parent", "Wrapper<Bar>"),
        field(FieldVisibility::Private, "x", "i32"),
    ];
    let first = qemu_api_macros::object::first_field(&fields);
    assert_eq!(first.name, "parent");
    assert_eq!(first.ty, "Wrapper<Bar>");
}

#[test]
fn object_success_uses_first_field_as_parent_slot() {
    let d = record(
        "Device",
        vec!["other", "repr(C)"],
        RecordData::NamedFields(vec![
            field(FieldVisibility::Private, "base", "Wrapper<Base>"),
            field(FieldVisibility::Public, "parent", "u32"),
        ]),
    );
    let f = expect_fragment(derive_object(&d));
    match f {
        Fragment::Registration { record_name, parent_field } => {
            assert_eq!(record_name, "Device");
            // the parent slot is field 0, whatever the other fields are named
            assert_eq!(parent_field, "base");
        }
        Fragment::FieldTable { .. } => panic!("expected a registration fragment"),
    }
}
