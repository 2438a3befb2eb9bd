//! Generated fragments and their exact textual rendering.
//!
//! A successful derivation yields a [`Fragment`]: either the
//! registration glue (a static field-type assertion plus an initializer
//! scheduled under the framework's type-registration phase), or a field
//! table that redeclares the record's fields in original order for
//! downstream offset computation. The render functions turn a fragment
//! into its source text; their contracts pin that text exactly, so the
//! shape of the generated code is part of the library's specification.

use vstd::prelude::*;
use vstd::string::StringExecFns;
use crate::decl::{FieldDecl, FieldDeclView, FieldVisibility};
use crate::diag::{Diagnostic, DiagnosticView};

verus! {

/// A generated source fragment: exactly one is produced by a successful
/// derivation.
pub enum Fragment {
    /// Registration glue: a static assertion that the record's parent
    /// slot has the expected wrapper type, and a registration call
    /// scheduled under the type-registration initialization phase.
    Registration { record_name: String, parent_field: String },
    /// The record's fields, re-declared in original order for the
    /// downstream offset-table macro.
    FieldTable { record_name: String, fields: Vec<FieldDecl> },
}

/// Mathematical model of a [`Fragment`].
pub enum FragmentView {
    Registration { record_name: Seq<char>, parent_field: Seq<char> },
    FieldTable { record_name: Seq<char>, fields: Seq<FieldDeclView> },
}

impl View for Fragment {
    type V = FragmentView;

    open spec fn view(&self) -> FragmentView {
        match self {
            Fragment::Registration { record_name, parent_field } => FragmentView::Registration {
                record_name: record_name@,
                parent_field: parent_field@,
            },
            Fragment::FieldTable { record_name, fields } => FragmentView::FieldTable {
                record_name: record_name@,
                fields: fields@.map(|i: int, f: FieldDecl| f@),
            },
        }
    }
}

/// The two mutually exclusive outcomes of a derivation: a generated
/// fragment, or a single diagnostic.
pub enum DeriveOutput {
    Fragment(Fragment),
    Diagnostic(Diagnostic),
}

/// Mathematical model of a [`DeriveOutput`].
pub enum DeriveOutputView {
    Fragment(FragmentView),
    Diagnostic(DiagnosticView),
}

impl View for DeriveOutput {
    type V = DeriveOutputView;

    open spec fn view(&self) -> DeriveOutputView {
        match self {
            DeriveOutput::Fragment(f) => DeriveOutputView::Fragment(f@),
            DeriveOutput::Diagnostic(d) => DeriveOutputView::Diagnostic(d@),
        }
    }
}

/// The text a field's visibility renders to.
pub open spec fn spec_render_vis(v: FieldVisibility) -> Seq<char> {
    match v {
        FieldVisibility::Public => "pub "@,
        FieldVisibility::Private => Seq::<char>::empty(),
    }
}

/// The text one field renders to inside the field table:
/// visibility, name, declared type, trailing separator.
pub open spec fn spec_render_field(f: FieldDeclView) -> Seq<char> {
    spec_render_vis(f.vis) + f.name + ": "@ + f.ty + ", "@
}

/// The text a field sequence renders to: each field in order.
pub open spec fn spec_render_fields(fs: Seq<FieldDeclView>) -> Seq<char>
    decreases fs.len(),
{
    if fs.len() == 0 {
        Seq::<char>::empty()
    } else {
        spec_render_fields(fs.drop_last()) + spec_render_field(fs.last())
    }
}

/// The registration fragment's text: one field-type assertion tying the
/// record's parent slot to the wrapper of its declared parent type, and
/// one initializer under the type-registration phase that registers the
/// record's static type-metadata descriptor.
pub open spec fn spec_render_registration(name: Seq<char>, parent: Seq<char>) -> Seq<char> {
    "::qemu_api::assert_field_type!("@ + name + ", "@ + parent
        + ", ::qemu_api::qom::ParentField<<"@ + name
        + " as ::qemu_api::qom::ObjectImpl>::ParentType>); ::qemu_api::module_init! { MODULE_INIT_QOM => unsafe { ::qemu_api::bindings::type_register_static(&<"@
        + name + " as ::qemu_api::qom::ObjectImpl>::TYPE_INFO); } }"@
}

/// The field-table fragment's text: the record redeclared with every
/// field's visibility, name and type, in original order, wrapped for
/// the downstream offset-table macro.
pub open spec fn spec_render_field_table(name: Seq<char>, fs: Seq<FieldDeclView>) -> Seq<char> {
    "::qemu_api::with_offsets! { struct "@ + name + " { "@ + spec_render_fields(fs) + "} }"@
}

/// The text any fragment renders to.
pub open spec fn spec_render_fragment(f: FragmentView) -> Seq<char> {
    match f {
        FragmentView::Registration { record_name, parent_field } => spec_render_registration(
            record_name,
            parent_field,
        ),
        FragmentView::FieldTable { record_name, fields } => spec_render_field_table(
            record_name,
            fields,
        ),
    }
}

/// The text a diagnostic renders to when the host toolchain asks for a
/// source-level rendering: a compile-time error carrying the message.
pub open spec fn spec_render_diagnostic(d: DiagnosticView) -> Seq<char> {
    "::core::compile_error!(\""@ + d.message + "\");"@
}

/// The text a derivation outcome renders to.
pub open spec fn spec_render_output(out: DeriveOutputView) -> Seq<char> {
    match out {
        DeriveOutputView::Fragment(f) => spec_render_fragment(f),
        DeriveOutputView::Diagnostic(d) => spec_render_diagnostic(d),
    }
}

/// Renders a field sequence, each field in original order.
fn render_fields(fields: &Vec<FieldDecl>) -> (s: String)
    ensures
        s@ == spec_render_fields(fields@.map(|i: int, f: FieldDecl| f@)),
{
    let ghost fsv = fields@.map(|i: int, f: FieldDecl| f@);
    let mut s = String::new();
    let n = fields.len();
    let mut i: usize = 0;
    proof {
        assert(fsv.take(0) =~= Seq::<FieldDeclView>::empty());
    }
    while i < n
        invariant
            n == fields.len(),
            i <= n,
            fsv == fields@.map(|i: int, f: FieldDecl| f@),
            s@ == spec_render_fields(fsv.take(i as int)),
        decreases n - i,
    {
        let ghost s_before = s@;
        let f = &fields[i];
        match f.vis {
            FieldVisibility::Public => s.append("pub "),
            FieldVisibility::Private => (),
        }
        s.append(f.name.as_str());
        s.append(": ");
        s.append(f.ty.as_str());
        s.append(", ");
        proof {
            assert(s@ =~= s_before + spec_render_field(fsv[i as int]));
            assert(fsv.take(i + 1).drop_last() =~= fsv.take(i as int));
            assert(fsv.take(i + 1).last() == fsv[i as int]);
        }
        i = i + 1;
    }
    proof {
        assert(fsv.take(n as int) =~= fsv);
    }
    s
}

/// Renders the registration fragment for a record name and its parent
/// slot's field name.
pub fn render_registration(name: &str, parent: &str) -> (s: String)
    ensures
        s@ == spec_render_registration(name@, parent@),
{
    let mut s = "::qemu_api::assert_field_type!(".to_owned();
    s.append(name);
    s.append(", ");
    s.append(parent);
    s.append(", ::qemu_api::qom::ParentField<<");
    s.append(name);
    s.append(
        " as ::qemu_api::qom::ObjectImpl>::ParentType>); ::qemu_api::module_init! { MODULE_INIT_QOM => unsafe { ::qemu_api::bindings::type_register_static(&<",
    );
    s.append(name);
    s.append(" as ::qemu_api::qom::ObjectImpl>::TYPE_INFO); } }");
    proof {
        assert(s@ =~= spec_render_registration(name@, parent@));
    }
    s
}

/// Renders the field-table fragment for a record name and its fields.
pub fn render_field_table(name: &str, fields: &Vec<FieldDecl>) -> (s: String)
    ensures
        s@ == spec_render_field_table(name@, fields@.map(|i: int, f: FieldDecl| f@)),
{
    let mut s = "::qemu_api::with_offsets! { struct ".to_owned();
    s.append(name);
    s.append(" { ");
    let body = render_fields(fields);
    s.append(body.as_str());
    s.append("} }");
    proof {
        assert(s@ =~= spec_render_field_table(name@, fields@.map(|i: int, f: FieldDecl| f@)));
    }
    s
}

/// Renders any fragment to its source text.
pub fn render_fragment(f: &Fragment) -> (s: String)
    ensures
        s@ == spec_render_fragment(f@),
{
    match f {
        Fragment::Registration { record_name, parent_field } => render_registration(
            record_name.as_str(),
            parent_field.as_str(),
        ),
        Fragment::FieldTable { record_name, fields } => render_field_table(
            record_name.as_str(),
            fields,
        ),
    }
}

/// Renders a diagnostic as a compile-time error carrying its message.
pub fn render_diagnostic(d: &Diagnostic) -> (s: String)
    ensures
        s@ == spec_render_diagnostic(d@),
{
    let mut s = "::core::compile_error!(\"".to_owned();
    s.append(d.message.as_str());
    s.append("\");");
    proof {
        assert(s@ =~= spec_render_diagnostic(d@));
    }
    s
}

/// Renders a derivation outcome: the fragment's text on success, the
/// compile-time error on failure.
pub fn render_output(out: &DeriveOutput) -> (s: String)
    ensures
        s@ == spec_render_output(out@),
{
    match out {
        DeriveOutput::Fragment(f) => render_fragment(f),
        DeriveOutput::Diagnostic(d) => render_diagnostic(d),
    }
}

} // verus!
