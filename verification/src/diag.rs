//! Diagnostics: the single error value a failed derivation produces.
//!
//! A diagnostic carries a kind (the two-element error taxonomy), a
//! human-readable message, and a location — the identifier of the
//! offending record declaration, so the host toolchain can attribute
//! the error to it. Validation short-circuits on the first failure, so
//! at most one diagnostic is ever produced per invocation.

use vstd::prelude::*;
use vstd::string::StringExecFns;
use crate::decl::{RecordDecl, RecordDeclView};

verus! {

/// The error taxonomy: a record that is not a named-field composite
/// record (`Shape`), or one that lacks the deterministic-layout
/// attribute (`Attribute`).
#[derive(Clone, Copy, PartialEq, Eq, Structural, Debug)]
pub enum ErrorKind {
    Shape,
    Attribute,
}

/// A diagnostic: kind, message text, and the identifier of the record
/// declaration the error is located at.
pub struct Diagnostic {
    pub kind: ErrorKind,
    pub message: String,
    pub location: String,
}

/// Mathematical model of a [`Diagnostic`].
pub struct DiagnosticView {
    pub kind: ErrorKind,
    pub message: Seq<char>,
    pub location: Seq<char>,
}

impl View for Diagnostic {
    type V = DiagnosticView;

    open spec fn view(&self) -> DiagnosticView {
        DiagnosticView { kind: self.kind, message: self.message@, location: self.location@ }
    }
}

/// The message of a shape error, for a given derivation context label.
pub open spec fn spec_shape_message(ctx: Seq<char>) -> Seq<char> {
    "Named fields required for "@ + ctx
}

/// The message of a missing-attribute error, for a given derivation
/// context label.
pub open spec fn spec_attribute_message(ctx: Seq<char>) -> Seq<char> {
    "#[repr(C)] required for "@ + ctx
}

/// The diagnostic reporting that `d` is not a named-field record, in
/// the derivation context `ctx`.
pub open spec fn spec_shape_diagnostic(d: RecordDeclView, ctx: Seq<char>) -> DiagnosticView {
    DiagnosticView { kind: ErrorKind::Shape, message: spec_shape_message(ctx), location: d.name }
}

/// The diagnostic reporting that `d` lacks the deterministic-layout
/// attribute, in the derivation context `ctx`.
pub open spec fn spec_attribute_diagnostic(d: RecordDeclView, ctx: Seq<char>) -> DiagnosticView {
    DiagnosticView { kind: ErrorKind::Attribute, message: spec_attribute_message(ctx), location: d.name }
}

/// Builds the shape-error diagnostic for `input` in context `msg`,
/// located at the record's identifier.
pub fn shape_diagnostic(input: &RecordDecl, msg: &str) -> (d: Diagnostic)
    ensures
        d@ == spec_shape_diagnostic(input@, msg@),
{
    let mut text = "Named fields required for ".to_owned();
    text.append(msg);
    Diagnostic { kind: ErrorKind::Shape, message: text, location: input.name.clone() }
}

/// Builds the missing-attribute diagnostic for `input` in context
/// `msg`, located at the record's identifier.
pub fn attribute_diagnostic(input: &RecordDecl, msg: &str) -> (d: Diagnostic)
    ensures
        d@ == spec_attribute_diagnostic(input@, msg@),
{
    let mut text = "#[repr(C)] required for ".to_owned();
    text.append(msg);
    Diagnostic { kind: ErrorKind::Attribute, message: text, location: input.name.clone() }
}

} // verus!
