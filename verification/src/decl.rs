//! The input data model: a record declaration as handed over by the
//! host toolchain, reduced to the parts the generators read.
//!
//! A record declaration carries an identifier, the textual form of each
//! attached attribute, and its data shape. Only a named-field composite
//! record (`RecordData::NamedFields`) can be generated for; the other
//! shapes exist so that validation can recognise and reject them.

use vstd::prelude::*;

verus! {

/// Visibility of a single field, as declared on the record.
#[derive(Clone, Copy, PartialEq, Eq, Structural, Debug)]
pub enum FieldVisibility {
    Public,
    Private,
}

/// One declared field: visibility, name, and the exact text of its
/// declared type expression. Order of fields is significant and is
/// preserved end-to-end by the generators.
pub struct FieldDecl {
    pub vis: FieldVisibility,
    pub name: String,
    pub ty: String,
}

/// Mathematical model of a [`FieldDecl`].
pub struct FieldDeclView {
    pub vis: FieldVisibility,
    pub name: Seq<char>,
    pub ty: Seq<char>,
}

impl View for FieldDecl {
    type V = FieldDeclView;

    open spec fn view(&self) -> FieldDeclView {
        FieldDeclView { vis: self.vis, name: self.name@, ty: self.ty@ }
    }
}

/// The data shape of a record declaration. Generation requires named
/// fields; every other shape is a validation failure.
pub enum RecordData {
    /// A composite record with named fields, in declaration order.
    NamedFields(Vec<FieldDecl>),
    /// A composite record with positional (tuple-like) fields.
    TupleFields,
    /// A composite record with no field list at all.
    UnitFields,
    /// A sum type (enumerated alternatives).
    Enumerated,
    /// An untagged overlay of fields.
    UnionFields,
}

/// Mathematical model of a [`RecordData`].
pub enum RecordDataView {
    NamedFields(Seq<FieldDeclView>),
    TupleFields,
    UnitFields,
    Enumerated,
    UnionFields,
}

impl View for RecordData {
    type V = RecordDataView;

    open spec fn view(&self) -> RecordDataView {
        match self {
            RecordData::NamedFields(fields) => RecordDataView::NamedFields(
                fields@.map(|i: int, f: FieldDecl| f@),
            ),
            RecordData::TupleFields => RecordDataView::TupleFields,
            RecordData::UnitFields => RecordDataView::UnitFields,
            RecordData::Enumerated => RecordDataView::Enumerated,
            RecordData::UnionFields => RecordDataView::UnionFields,
        }
    }
}

/// The input entity: a record declaration with its identifier, the
/// textual form of each attached attribute (for instance `repr(C)`),
/// and its data shape. It is never mutated by the generators.
pub struct RecordDecl {
    pub name: String,
    pub attrs: Vec<String>,
    pub data: RecordData,
}

/// Mathematical model of a [`RecordDecl`].
pub struct RecordDeclView {
    pub name: Seq<char>,
    pub attrs: Seq<Seq<char>>,
    pub data: RecordDataView,
}

impl View for RecordDecl {
    type V = RecordDeclView;

    open spec fn view(&self) -> RecordDeclView {
        RecordDeclView {
            name: self.name@,
            attrs: self.attrs@.map(|i: int, a: String| a@),
            data: self.data@,
        }
    }
}

/// The text of the deterministic-layout marker: the attribute that
/// guarantees stable, C-compatible field ordering.
pub open spec fn spec_layout_attr() -> Seq<char> {
    "repr(C)"@
}

/// Whether the declaration carries the deterministic-layout attribute.
pub open spec fn has_layout_attr(d: RecordDeclView) -> bool {
    exists|i: int| 0 <= i < d.attrs.len() && d.attrs[i] == spec_layout_attr()
}

/// Whether the declaration is a named-field composite record.
pub open spec fn is_named_record(d: RecordDeclView) -> bool {
    d.data is NamedFields
}

/// The declared field sequence of a named-field record.
pub open spec fn named_fields(d: RecordDeclView) -> Seq<FieldDeclView>
    recommends
        is_named_record(d),
{
    d.data->NamedFields_0
}

} // verus!
