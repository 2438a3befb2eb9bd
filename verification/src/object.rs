//! The registration derivation: validates the record and generates the
//! type-registration glue.
//!
//! On a record carrying the deterministic-layout attribute and declared
//! with named fields, the derivation resolves the parent slot — the
//! first declared field, which by framework convention holds the
//! wrapped supertype instance — and produces a registration fragment:
//! a static assertion on the parent slot's type and an initializer
//! under the type-registration phase. Validation failures yield the
//! corresponding diagnostic instead, the attribute check first.

use vstd::prelude::*;
use crate::decl::{has_layout_attr, is_named_record, named_fields, FieldDecl, RecordDecl, RecordDeclView};
use crate::diag::{spec_attribute_diagnostic, spec_shape_diagnostic, Diagnostic, DiagnosticView};
use crate::fragment::{DeriveOutput, DeriveOutputView, Fragment, FragmentView};
use crate::validate::{get_fields, is_c_repr};

verus! {

/// The context label the registration derivation reports in its
/// diagnostics.
pub open spec fn spec_object_context() -> Seq<char> {
    "#[derive(Object)]"@
}

/// The outcome of the registration derivation on `d`: the registration
/// fragment naming the record and its parent slot, or the first failing
/// validation's diagnostic (attribute first, then shape).
pub open spec fn spec_derive_object(d: RecordDeclView) -> Result<FragmentView, DiagnosticView> {
    if !has_layout_attr(d) {
        Err(spec_attribute_diagnostic(d, spec_object_context()))
    } else if !is_named_record(d) {
        Err(spec_shape_diagnostic(d, spec_object_context()))
    } else {
        Ok(
            FragmentView::Registration {
                record_name: d.name,
                parent_field: named_fields(d)[0].name,
            },
        )
    }
}

/// The registration derivation's outcome as a single value: exactly one
/// of a fragment or a diagnostic.
pub open spec fn spec_derive_object_output(d: RecordDeclView) -> DeriveOutputView {
    match spec_derive_object(d) {
        Ok(f) => DeriveOutputView::Fragment(f),
        Err(e) => DeriveOutputView::Diagnostic(e),
    }
}

/// The parent-field resolver: a pure projection of the first declared
/// field, the record's parent slot.
pub fn first_field<'a>(fields: &'a Vec<FieldDecl>) -> (f: &'a FieldDecl)
    requires
        fields@.len() > 0,
    ensures
        *f == fields@[0],
{
    &fields[0]
}

/// Runs the registration derivation on `input`: validates the layout
/// attribute and the named-field shape, resolves the parent slot, and
/// returns the registration fragment, or the first validation failure's
/// diagnostic.
///
/// A named-field record with the attribute but no fields at all has no
/// parent slot to resolve and is excluded by precondition: the caller
/// must reject it before asking for this derivation.
pub fn derive_object_or_error(input: &RecordDecl) -> (r: Result<Fragment, Diagnostic>)
    requires
        has_layout_attr(input@) && is_named_record(input@) ==> named_fields(input@).len() > 0,
    ensures
        match r {
            Ok(f) => spec_derive_object(input@) == Ok::<FragmentView, DiagnosticView>(f@),
            Err(d) => spec_derive_object(input@) == Err::<FragmentView, DiagnosticView>(d@),
        },
{
    if let Err(d) = is_c_repr(input, "#[derive(Object)]") {
        return Err(d);
    }
    let fields = match get_fields(input, "#[derive(Object)]") {
        Ok(fields) => fields,
        Err(d) => {
            return Err(d);
        },
    };
    let parent = first_field(fields);
    Ok(
        Fragment::Registration {
            record_name: input.name.clone(),
            parent_field: parent.name.clone(),
        },
    )
}

/// The registration derivation with its outcome folded into a single
/// value, as handed back to the host toolchain: exactly one of a
/// generated fragment or a diagnostic, never both, never neither.
pub fn derive_object(input: &RecordDecl) -> (out: DeriveOutput)
    requires
        has_layout_attr(input@) && is_named_record(input@) ==> named_fields(input@).len() > 0,
    ensures
        out@ == spec_derive_object_output(input@),
{
    match derive_object_or_error(input) {
        Ok(f) => DeriveOutput::Fragment(f),
        Err(d) => DeriveOutput::Diagnostic(d),
    }
}

} // verus!
