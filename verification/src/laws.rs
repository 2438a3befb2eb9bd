//! The library's laws: properties that hold of every derivation, proved
//! once and for all over the derivations' mathematical models.

use vstd::prelude::*;
use crate::decl::{has_layout_attr, is_named_record, named_fields, RecordDeclView};
use crate::diag::{spec_attribute_diagnostic, spec_shape_diagnostic, DiagnosticView, ErrorKind};
use crate::fragment::{spec_render_output, spec_render_registration, FragmentView};
use crate::object::{spec_derive_object, spec_derive_object_output, spec_object_context};
use crate::offsets::{spec_derive_offsets, spec_derive_offsets_output, spec_offsets_context};

verus! {

/// Success path of the registration derivation: on any record with the
/// deterministic-layout attribute, named fields, and a non-empty field
/// list, the derivation succeeds with a registration fragment naming
/// exactly the record and its first field (the parent slot), and that
/// fragment renders to exactly one field-type assertion and one
/// initializer under the type-registration phase, both referencing the
/// record's name.
pub proof fn lemma_registration_success(d: RecordDeclView)
    requires
        has_layout_attr(d),
        is_named_record(d),
        named_fields(d).len() > 0,
    ensures
        spec_derive_object(d) == Ok::<FragmentView, DiagnosticView>(
            FragmentView::Registration {
                record_name: d.name,
                parent_field: named_fields(d)[0].name,
            },
        ),
        spec_render_output(spec_derive_object_output(d)) == spec_render_registration(
            d.name,
            named_fields(d)[0].name,
        ),
{
}

/// Missing attribute: any record lacking the deterministic-layout
/// attribute is rejected by both derivations with the attribute
/// diagnostic, located at the record's identifier, regardless of its
/// field shape.
pub proof fn lemma_missing_attribute_rejects(d: RecordDeclView)
    requires
        !has_layout_attr(d),
    ensures
        spec_derive_object(d) == Err::<FragmentView, DiagnosticView>(
            spec_attribute_diagnostic(d, spec_object_context()),
        ),
        spec_derive_offsets(d) == Err::<FragmentView, DiagnosticView>(
            spec_attribute_diagnostic(d, spec_offsets_context()),
        ),
        spec_derive_object(d)->Err_0.kind == ErrorKind::Attribute,
        spec_derive_offsets(d)->Err_0.kind == ErrorKind::Attribute,
        spec_derive_object(d)->Err_0.location == d.name,
        spec_derive_offsets(d)->Err_0.location == d.name,
{
}

/// Wrong shape: any record that is not a named-field composite record
/// but does carry the layout attribute is rejected by both derivations
/// with the shape diagnostic, located at the record's identifier.
pub proof fn lemma_wrong_shape_rejects(d: RecordDeclView)
    requires
        has_layout_attr(d),
        !is_named_record(d),
    ensures
        spec_derive_object(d) == Err::<FragmentView, DiagnosticView>(
            spec_shape_diagnostic(d, spec_object_context()),
        ),
        spec_derive_offsets(d) == Err::<FragmentView, DiagnosticView>(
            spec_shape_diagnostic(d, spec_offsets_context()),
        ),
        spec_derive_object(d)->Err_0.kind == ErrorKind::Shape,
        spec_derive_offsets(d)->Err_0.kind == ErrorKind::Shape,
        spec_derive_object(d)->Err_0.location == d.name,
        spec_derive_offsets(d)->Err_0.location == d.name,
{
}

/// Offset fidelity: on any record with the layout attribute and named
/// fields, the offsets derivation succeeds with a field table of
/// exactly the record's fields — same length, same order, and every
/// entry's visibility, name and type preserved exactly as declared.
pub proof fn lemma_field_table_fidelity(d: RecordDeclView)
    requires
        has_layout_attr(d),
        is_named_record(d),
    ensures
        spec_derive_offsets(d) == Ok::<FragmentView, DiagnosticView>(
            FragmentView::FieldTable { record_name: d.name, fields: named_fields(d) },
        ),
        spec_derive_offsets(d)->Ok_0->FieldTable_fields.len() == named_fields(d).len(),
        forall|i: int|
            0 <= i < named_fields(d).len() ==> spec_derive_offsets(d)->Ok_0->FieldTable_fields[i]
                == named_fields(d)[i],
{
}

/// Mutual exclusivity: every derivation outcome is exactly one of a
/// generated fragment or a diagnostic — never both, never neither —
/// and it is a fragment precisely when the record carries the layout
/// attribute and has named fields.
pub proof fn lemma_exclusive_outcomes(d: RecordDeclView)
    ensures
        (spec_derive_object_output(d) is Fragment) <==> !(spec_derive_object_output(d)
            is Diagnostic),
        (spec_derive_offsets_output(d) is Fragment) <==> !(spec_derive_offsets_output(d)
            is Diagnostic),
        (spec_derive_object_output(d) is Fragment) <==> has_layout_attr(d) && is_named_record(d),
        (spec_derive_offsets_output(d) is Fragment) <==> has_layout_attr(d) && is_named_record(d),
{
}

} // verus!
