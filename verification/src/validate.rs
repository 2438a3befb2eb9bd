//! The shape validator: the common validation pipeline both generators
//! run before any code is generated.
//!
//! Two independent checks: the declaration must carry the
//! deterministic-layout attribute (`is_c_repr`), and it must be a
//! named-field composite record (`get_fields`). Each check either
//! passes or yields a single diagnostic located at the record's
//! identifier; validation never produces partial output.

use vstd::prelude::*;
use crate::decl::{has_layout_attr, named_fields, spec_layout_attr, FieldDecl, FieldDeclView, RecordData, RecordDecl, RecordDeclView};
use crate::diag::{spec_attribute_diagnostic, spec_shape_diagnostic, attribute_diagnostic, shape_diagnostic, Diagnostic, DiagnosticView};

verus! {

/// The outcome of the named-field shape check on `d` in context `ctx`:
/// the declared field sequence, or a shape diagnostic.
pub open spec fn spec_get_fields(d: RecordDeclView, ctx: Seq<char>) -> Result<
    Seq<FieldDeclView>,
    DiagnosticView,
> {
    if d.data is NamedFields {
        Ok(named_fields(d))
    } else {
        Err(spec_shape_diagnostic(d, ctx))
    }
}

/// The outcome of the layout-attribute check on `d` in context `ctx`.
pub open spec fn spec_is_c_repr(d: RecordDeclView, ctx: Seq<char>) -> Result<(), DiagnosticView> {
    if has_layout_attr(d) {
        Ok(())
    } else {
        Err(spec_attribute_diagnostic(d, ctx))
    }
}

/// Checks that `input` is a named-field composite record and returns
/// its ordered field sequence; any other shape yields the shape
/// diagnostic for context `msg`, located at the record's identifier.
pub fn get_fields<'a>(input: &'a RecordDecl, msg: &str) -> (r: Result<&'a Vec<FieldDecl>, Diagnostic>)
    ensures
        match r {
            Ok(fields) => spec_get_fields(input@, msg@) == Ok::<_, DiagnosticView>(
                fields@.map(|i: int, f: FieldDecl| f@),
            ),
            Err(d) => spec_get_fields(input@, msg@) == Err::<Seq<FieldDeclView>, _>(d@),
        },
{
    match &input.data {
        RecordData::NamedFields(fields) => Ok(fields),
        _ => Err(shape_diagnostic(input, msg)),
    }
}

/// Decides whether `input` carries the deterministic-layout attribute
/// `repr(C)`.
pub fn has_layout_attribute(input: &RecordDecl) -> (r: bool)
    ensures
        r == has_layout_attr(input@),
{
    let expected: String = "repr(C)".to_owned();
    let n = input.attrs.len();
    let mut i: usize = 0;
    while i < n
        invariant
            n == input.attrs.len(),
            i <= n,
            expected@ == spec_layout_attr(),
            forall|j: int| 0 <= j < i ==> input@.attrs[j] != spec_layout_attr(),
        decreases n - i,
    {
        if input.attrs[i] == expected {
            assert(input@.attrs[i as int] == spec_layout_attr());
            return true;
        }
        i = i + 1;
    }
    false
}

/// Checks that `input` carries the deterministic-layout attribute
/// `repr(C)`; if it does not, yields the missing-attribute diagnostic
/// for context `msg`, located at the record's identifier.
pub fn is_c_repr(input: &RecordDecl, msg: &str) -> (r: Result<(), Diagnostic>)
    ensures
        match r {
            Ok(()) => spec_is_c_repr(input@, msg@) == Ok::<(), DiagnosticView>(()),
            Err(d) => spec_is_c_repr(input@, msg@) == Err::<(), DiagnosticView>(d@),
        },
{
    if has_layout_attribute(input) {
        Ok(())
    } else {
        Err(attribute_diagnostic(input, msg))
    }
}

} // verus!
