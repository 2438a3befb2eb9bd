//! The offsets derivation: validates the record and generates its field
//! table.
//!
//! On a record carrying the deterministic-layout attribute and declared
//! with named fields, the derivation re-serializes the field list —
//! every field's visibility, name and declared type, in original
//! declaration order, losslessly — into a field-table fragment for the
//! downstream offset-table macro. Validation failures yield the
//! corresponding diagnostic instead, the attribute check first.

use vstd::prelude::*;
use crate::decl::{has_layout_attr, is_named_record, named_fields, FieldDecl, RecordDecl, RecordDeclView};
use crate::diag::{spec_attribute_diagnostic, spec_shape_diagnostic, Diagnostic, DiagnosticView};
use crate::fragment::{DeriveOutput, DeriveOutputView, Fragment, FragmentView};
use crate::validate::{get_fields, is_c_repr};

verus! {

/// The context label the offsets derivation reports in its diagnostics.
pub open spec fn spec_offsets_context() -> Seq<char> {
    "#[derive(offsets)]"@
}

/// The outcome of the offsets derivation on `d`: the field-table
/// fragment carrying the record's fields unchanged and in order, or the
/// first failing validation's diagnostic (attribute first, then shape).
pub open spec fn spec_derive_offsets(d: RecordDeclView) -> Result<FragmentView, DiagnosticView> {
    if !has_layout_attr(d) {
        Err(spec_attribute_diagnostic(d, spec_offsets_context()))
    } else if !is_named_record(d) {
        Err(spec_shape_diagnostic(d, spec_offsets_context()))
    } else {
        Ok(FragmentView::FieldTable { record_name: d.name, fields: named_fields(d) })
    }
}

/// The offsets derivation's outcome as a single value: exactly one of a
/// fragment or a diagnostic.
pub open spec fn spec_derive_offsets_output(d: RecordDeclView) -> DeriveOutputView {
    match spec_derive_offsets(d) {
        Ok(f) => DeriveOutputView::Fragment(f),
        Err(e) => DeriveOutputView::Diagnostic(e),
    }
}

/// Copies a field sequence exactly: same visibility, name and type for
/// every field, in the same order.
fn clone_fields(fields: &Vec<FieldDecl>) -> (r: Vec<FieldDecl>)
    ensures
        r@ =~= fields@,
{
    let mut out: Vec<FieldDecl> = Vec::new();
    let n = fields.len();
    let mut i: usize = 0;
    while i < n
        invariant
            n == fields.len(),
            i <= n,
            out@ =~= fields@.take(i as int),
        decreases n - i,
    {
        let f = &fields[i];
        let copy = FieldDecl { vis: f.vis, name: f.name.clone(), ty: f.ty.clone() };
        proof {
            assert(copy == fields@[i as int]);
        }
        out.push(copy);
        proof {
            assert(out@ =~= fields@.take(i + 1));
        }
        i = i + 1;
    }
    proof {
        assert(fields@.take(n as int) =~= fields@);
    }
    out
}

/// Runs the offsets derivation on `input`: validates the layout
/// attribute and the named-field shape, and returns the field-table
/// fragment preserving every field, or the first validation failure's
/// diagnostic.
pub fn derive_offsets_or_error(input: &RecordDecl) -> (r: Result<Fragment, Diagnostic>)
    ensures
        match r {
            Ok(f) => spec_derive_offsets(input@) == Ok::<FragmentView, DiagnosticView>(f@),
            Err(d) => spec_derive_offsets(input@) == Err::<FragmentView, DiagnosticView>(d@),
        },
{
    if let Err(d) = is_c_repr(input, "#[derive(offsets)]") {
        return Err(d);
    }
    let fields = match get_fields(input, "#[derive(offsets)]") {
        Ok(fields) => fields,
        Err(d) => {
            return Err(d);
        },
    };
    Ok(Fragment::FieldTable { record_name: input.name.clone(), fields: clone_fields(fields) })
}

/// The offsets derivation with its outcome folded into a single value,
/// as handed back to the host toolchain: exactly one of a generated
/// fragment or a diagnostic, never both, never neither.
pub fn derive_offsets(input: &RecordDecl) -> (out: DeriveOutput)
    ensures
        out@ == spec_derive_offsets_output(input@),
{
    match derive_offsets_or_error(input) {
        Ok(f) => DeriveOutput::Fragment(f),
        Err(d) => DeriveOutput::Diagnostic(d),
    }
}

} // verus!
