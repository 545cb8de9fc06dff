//! Per-field work: the type-shape inspector, the annotation parser, and the
//! three-way field classifier that combines them.

use vstd::prelude::*;

use crate::helpers::{
    collect_errors, collected, err_parts, lemma_err_parts_contains, lemma_err_parts_exists,
    lemma_parts_dv, ok_parts, result_dv, results_dv, seq_dv, str_eq,
};
use vstd::string::StringExecFns;
use crate::input::{
    Arg, ArgView, Attr, AttrView, Diagnostic, DiagnosticView, Entry, EntryView, Field, FieldView,
    Shape, ShapeView, Ty, TyView,
};

verus! {

/// The wrapper name whose single argument marks a field as optional.
pub open spec fn optional_wrapper() -> Seq<char> {
    "Option"@
}

/// The container name whose single argument marks a field as multi-valued.
pub open spec fn multi_container() -> Seq<char> {
    "Vec"@
}

/// The outer name of the annotations this pipeline recognizes.
pub open spec fn annotation_name() -> Seq<char> {
    "builder"@
}

/// The one nested key the annotation grammar accepts.
pub open spec fn each_key() -> Seq<char> {
    "each"@
}

/// What a type matches against a named single-argument wrapper shape: the
/// single argument's written form when the type is written as `wrapper<T>`
/// with exactly one type argument, and nothing otherwise.
pub open spec fn type_behind_spec(t: TyView, wrapper: Seq<char>) -> Option<Seq<char>> {
    match t.shape {
        ShapeView::Named { name, args } => {
            if name == wrapper {
                match args {
                    Some(list) => {
                        if list.len() == 1 {
                            match list[0] {
                                ArgView::TypeArg(inner) => Some(inner),
                                ArgView::OtherArg => None,
                            }
                        } else {
                            None
                        }
                    },
                    None => None,
                }
            } else {
                None
            }
        },
        ShapeView::Other => None,
    }
}

/// Structurally matches `ty` against the single-argument wrapper shape named
/// `wrapper` and hands back the wrapped type's written form. Purely
/// syntactic: no alias resolution, no bound checking.
pub fn type_behind(ty: &Ty, wrapper: &str) -> (r: Option<String>)
    ensures
        r.deep_view() == type_behind_spec(ty.deep_view(), wrapper@),
{
    match &ty.shape {
        Shape::Named { name, args } => {
            if str_eq(name.as_str(), wrapper) {
                match args {
                    Some(list) => {
                        if list.len() == 1 {
                            match &list[0] {
                                Arg::TypeArg(inner) => Some(inner.clone()),
                                Arg::OtherArg => None,
                            }
                        } else {
                            None
                        }
                    },
                    None => None,
                }
            } else {
                None
            }
        },
        Shape::Other => None,
    }
}

/// The message every malformed annotation entry is reported with.
pub open spec fn each_expected_message() -> Seq<char> {
    "expected `each = \"...\"`"@
}

/// The diagnostic for a malformed annotation entry at `span`.
pub open spec fn each_diag(span: u64) -> DiagnosticView {
    DiagnosticView { span, message: each_expected_message() }
}

/// What parsing one annotation entry yields: the declared alias when the
/// entry is `each = "..."`, and a located diagnostic quoting the expected
/// form for any other entry.
pub open spec fn entry_parsed(e: EntryView) -> Result<Seq<char>, DiagnosticView> {
    match e {
        EntryView::KeyValue { key, value, span } => {
            if key == each_key() {
                Ok(value)
            } else {
                Err(each_diag(span))
            }
        },
        EntryView::Malformed { span } => Err(each_diag(span)),
    }
}

/// The parse of every entry of one annotation, in written order; an
/// annotation whose outer name is not the recognized keyword contributes
/// nothing.
pub open spec fn attr_parsed(a: AttrView) -> Seq<Result<Seq<char>, DiagnosticView>> {
    if a.name == annotation_name() {
        a.entries.map_values(|e: EntryView| entry_parsed(e))
    } else {
        Seq::empty()
    }
}

/// The parse of every entry of every annotation, in written order.
pub open spec fn attrs_parsed(attrs: Seq<AttrView>) -> Seq<Result<Seq<char>, DiagnosticView>>
    decreases attrs.len(),
{
    if attrs.len() == 0 {
        Seq::empty()
    } else {
        attrs_parsed(attrs.drop_last()) + attr_parsed(attrs.last())
    }
}

/// The attribute parser's outcome on a field's annotations: every declared
/// alias in order, unless any entry is malformed, in which case every
/// malformed entry's diagnostic, in order.
pub open spec fn parse_each_spec(attrs: Seq<AttrView>) -> Result<
    Seq<Seq<char>>,
    Seq<DiagnosticView>,
> {
    collected(attrs_parsed(attrs))
}

/// Builds the diagnostic for a malformed annotation entry.
fn each_expected_diagnostic(span: u64) -> (d: Diagnostic)
    ensures
        d.deep_view() == each_diag(span),
{
    Diagnostic { span, message: "expected `each = \"...\"`".to_owned() }
}

/// Parses one annotation entry against the `each = "..."` grammar.
pub fn parse_each_entry(entry: &Entry) -> (r: Result<String, Diagnostic>)
    ensures
        result_dv(r) == entry_parsed(entry.deep_view()),
{
    match entry {
        Entry::KeyValue { key, value, span } => {
            if str_eq(key.as_str(), "each") {
                Ok(value.clone())
            } else {
                Err(each_expected_diagnostic(*span))
            }
        },
        Entry::Malformed { span } => Err(each_expected_diagnostic(*span)),
    }
}

/// Parses one annotation: appends the parse of each of its entries to `out`,
/// visiting every entry whether or not an earlier one was malformed.
pub fn parse_each_attr(attr: &Attr, out: &mut Vec<Result<String, Diagnostic>>)
    ensures
        results_dv(final(out)@) == results_dv(old(out)@) + attr_parsed(attr.deep_view()),
{
    proof {
        assert(results_dv(out@) =~= results_dv(out@) + Seq::empty());
    }
    if !str_eq(attr.name.as_str(), "builder") {
        return ;
    }
    let ghost entries_view: Seq<EntryView> = attr.deep_view().entries;
    let mut i: usize = 0;
    while i < attr.entries.len()
        invariant
            i <= attr.entries.len(),
            entries_view == attr.deep_view().entries,
            attr.deep_view().name == annotation_name(),
            results_dv(out@) == results_dv(old(out)@) + entries_view.take(i as int).map_values(
                |e: EntryView| entry_parsed(e),
            ),
        decreases attr.entries.len() - i,
    {
        let parsed = parse_each_entry(&attr.entries[i]);
        proof {
            assert(attr.entries[i as int].deep_view() == entries_view[i as int]);
        }
        let ghost pre = results_dv(out@);
        out.push(parsed);
        i = i + 1;
        proof {
            assert(results_dv(out@) =~= pre.push(result_dv(parsed)));
            assert(entries_view.take(i as int).map_values(|e: EntryView| entry_parsed(e))
                =~= entries_view.take(i as int - 1).map_values(|e: EntryView| entry_parsed(e)).push(
                entry_parsed(entries_view[i as int - 1]),
            ));
            assert(results_dv(out@) =~= results_dv(old(out)@) + entries_view.take(
                i as int,
            ).map_values(|e: EntryView| entry_parsed(e)));
        }
    }
    proof {
        assert(entries_view.take(attr.entries.len() as int) =~= entries_view);
    }
}

/// Runs the attribute parser over every annotation of a field: either every
/// declared accumulator alias in order, or every malformed entry's
/// diagnostic in order — never just the first.
pub fn get_each_attrs(field: &Field) -> (r: Result<Vec<String>, Vec<Diagnostic>>)
    ensures
        result_dv(r) == parse_each_spec(field.deep_view().attrs),
{
    let ghost attrs_view: Seq<AttrView> = field.deep_view().attrs;
    let mut results: Vec<Result<String, Diagnostic>> = Vec::new();
    let mut i: usize = 0;
    proof {
        assert(results_dv(results@) =~= attrs_parsed(attrs_view.take(0)));
    }
    while i < field.attrs.len()
        invariant
            i <= field.attrs.len(),
            attrs_view == field.deep_view().attrs,
            results_dv(results@) == attrs_parsed(attrs_view.take(i as int)),
        decreases field.attrs.len() - i,
    {
        parse_each_attr(&field.attrs[i], &mut results);
        proof {
            assert(field.attrs[i as int].deep_view() == attrs_view[i as int]);
        }
        i = i + 1;
        proof {
            assert(attrs_view.take(i as int).drop_last() =~= attrs_view.take(i as int - 1));
            assert(attrs_view.take(i as int).last() == attrs_view[i as int - 1]);
        }
    }
    proof {
        assert(attrs_view.take(field.attrs.len() as int) =~= attrs_view);
        lemma_parts_dv(results@);
    }
    match collect_errors(results) {
        Ok(aliases) => {
            proof {
                assert(seq_dv(aliases@) =~= aliases.deep_view());
            }
            Ok(aliases)
        },
        Err(diags) => {
            proof {
                assert(seq_dv(diags@) =~= diags.deep_view());
            }
            Err(diags)
        },
    }
}

/// Matches a type against the optional-wrapper shape.
pub fn type_behind_option(ty: &Ty) -> (r: Option<String>)
    ensures
        r.deep_view() == type_behind_spec(ty.deep_view(), optional_wrapper()),
{
    type_behind(ty, "Option")
}

/// Matches a type against the multi-valued-container shape.
pub fn type_behind_vec(ty: &Ty) -> (r: Option<String>)
    ensures
        r.deep_view() == type_behind_spec(ty.deep_view(), multi_container()),
{
    type_behind(ty, "Vec")
}

/// The classified descriptor of one field: exactly one of three
/// construction policies.
#[derive(Debug, PartialEq)]
pub enum BuilderField {
    /// A single-valued field that must be set before finalizing; carries the
    /// declared type as written.
    Mandatory { ident: String, ty: String },
    /// A single-valued field that may be left unset; carries the type behind
    /// the optional wrapper.
    Optional { ident: String, ty: String },
    /// A multi-valued accumulating field; carries its accumulator aliases in
    /// declaration order (not deduplicated), whether a bulk-replace setter
    /// is emitted, the container type as written, and the element type
    /// behind the container.
    Multi {
        ident: String,
        attrs: Vec<String>,
        with_set_all: bool,
        ty: String,
        elem_ty: String,
    },
}

/// Mathematical image of [`BuilderField`].
pub enum BuilderFieldView {
    Mandatory { ident: Seq<char>, ty: Seq<char> },
    Optional { ident: Seq<char>, ty: Seq<char> },
    Multi {
        ident: Seq<char>,
        attrs: Seq<Seq<char>>,
        with_set_all: bool,
        ty: Seq<char>,
        elem_ty: Seq<char>,
    },
}

impl DeepView for BuilderField {
    type V = BuilderFieldView;

    open spec fn deep_view(&self) -> BuilderFieldView {
        match self {
            BuilderField::Mandatory { ident, ty } => BuilderFieldView::Mandatory {
                ident: ident@,
                ty: ty@,
            },
            BuilderField::Optional { ident, ty } => BuilderFieldView::Optional {
                ident: ident@,
                ty: ty@,
            },
            BuilderField::Multi { ident, attrs, with_set_all, ty, elem_ty } => {
                BuilderFieldView::Multi {
                    ident: ident@,
                    attrs: attrs.deep_view(),
                    with_set_all: *with_set_all,
                    ty: ty@,
                    elem_ty: elem_ty@,
                }
            },
        }
    }
}

/// The message of the diagnostic for a field that carries an `each`
/// annotation while its declared type does not match the multi-valued
/// container shape.
pub open spec fn mismatch_message(name: Seq<char>, text: Seq<char>) -> Seq<char> {
    "field `"@ + name + "` has `each` but its type `"@ + text + "` is not `Vec<...>`"@
}

/// The type-mismatch diagnostic for a field, at the field's location.
pub open spec fn mismatch_diag(f: FieldView) -> DiagnosticView {
    DiagnosticView { span: f.span, message: mismatch_message(f.name, f.ty.text) }
}

/// What classifying one field yields, as a total, deterministic function of
/// its declared type and raw annotations: the parser's diagnostics if any
/// entry is malformed; else Multi when at least one alias is declared and
/// the type matches the container shape, a type-mismatch diagnostic when it
/// does not; else Optional or Mandatory by the optional-wrapper shape. The
/// bulk-replace setter is suppressed exactly when an alias equals the
/// field's own name.
pub open spec fn classify_spec(f: FieldView) -> Result<BuilderFieldView, Seq<DiagnosticView>> {
    match parse_each_spec(f.attrs) {
        Err(diags) => Err(diags),
        Ok(aliases) => {
            if aliases.len() > 0 {
                match type_behind_spec(f.ty, multi_container()) {
                    Some(elem) => Ok(
                        BuilderFieldView::Multi {
                            ident: f.name,
                            attrs: aliases,
                            with_set_all: !aliases.contains(f.name),
                            ty: f.ty.text,
                            elem_ty: elem,
                        },
                    ),
                    None => Err(seq![mismatch_diag(f)]),
                }
            } else {
                match type_behind_spec(f.ty, optional_wrapper()) {
                    Some(inner) => Ok(BuilderFieldView::Optional { ident: f.name, ty: inner }),
                    None => Ok(BuilderFieldView::Mandatory { ident: f.name, ty: f.ty.text }),
                }
            }
        },
    }
}

/// Builds the type-mismatch diagnostic for a field.
fn mismatch_diagnostic(field: &Field) -> (d: Diagnostic)
    ensures
        d.deep_view() == mismatch_diag(field.deep_view()),
{
    let message = "field `".to_owned().concat(field.name.as_str()).concat(
        "` has `each` but its type `",
    ).concat(field.ty.text.as_str()).concat("` is not `Vec<...>`");
    Diagnostic { span: field.span, message }
}

/// True exactly when no alias in the list equals the field name.
fn no_alias_equals(aliases: &Vec<String>, name: &str) -> (r: bool)
    ensures
        r == !aliases.deep_view().contains(name@),
{
    let mut i: usize = 0;
    while i < aliases.len()
        invariant
            i <= aliases.len(),
            forall|j: int| 0 <= j < i ==> aliases.deep_view()[j] != name@,
        decreases aliases.len() - i,
    {
        if str_eq(aliases[i].as_str(), name) {
            proof {
                assert(aliases.deep_view()[i as int] == name@);
            }
            return false;
        }
        i = i + 1;
    }
    proof {
        assert forall|j: int| 0 <= j < aliases.deep_view().len() implies aliases.deep_view()[j]
            != name@ by {}
    }
    true
}

impl BuilderField {
    /// Classifies one field into exactly one construction policy, or fails
    /// with every diagnostic the field's annotations and type shape earn.
    pub fn try_from_field(field: &Field) -> (r: Result<BuilderField, Vec<Diagnostic>>)
        ensures
            result_dv(r) == classify_spec(field.deep_view()),
    {
        let each_attrs = match get_each_attrs(field) {
            Ok(aliases) => aliases,
            Err(diags) => {
                return Err(diags);
            },
        };
        if each_attrs.len() > 0 {
            match type_behind_vec(&field.ty) {
                Some(elem_ty) => {
                    let with_set_all = no_alias_equals(&each_attrs, field.name.as_str());
                    Ok(
                        BuilderField::Multi {
                            ident: field.name.clone(),
                            attrs: each_attrs,
                            with_set_all,
                            ty: field.ty.text.clone(),
                            elem_ty,
                        },
                    )
                },
                None => {
                    let diags = vec![mismatch_diagnostic(field)];
                    proof {
                        assert(diags.deep_view() =~= seq![mismatch_diag(field.deep_view())]);
                    }
                    Err(diags)
                },
            }
        } else {
            match type_behind_option(&field.ty) {
                Some(inner) => Ok(
                    BuilderField::Optional { ident: field.name.clone(), ty: inner },
                ),
                None => Ok(
                    BuilderField::Mandatory {
                        ident: field.name.clone(),
                        ty: field.ty.text.clone(),
                    },
                ),
            }
        }
    }
}

/// A field none of whose annotations contributes any recognized entry:
/// no annotation with the recognized outer name holds anything to parse.
pub open spec fn unannotated(f: FieldView) -> bool {
    attrs_parsed(f.attrs) == Seq::<Result<Seq<char>, DiagnosticView>>::empty()
}

/// A plain field — no annotation entries, not optional-wrapped — always
/// classifies as Mandatory, carrying its declared type as written.
pub proof fn lemma_plain_field_mandatory(f: FieldView)
    requires
        unannotated(f),
        type_behind_spec(f.ty, optional_wrapper()) is None,
    ensures
        classify_spec(f) == Ok::<BuilderFieldView, Seq<DiagnosticView>>(
            BuilderFieldView::Mandatory { ident: f.name, ty: f.ty.text },
        ),
{
    assert(err_parts(attrs_parsed(f.attrs)) =~= Seq::<DiagnosticView>::empty());
    assert(ok_parts(attrs_parsed(f.attrs)) =~= Seq::<Seq<char>>::empty());
}

/// A field with no annotation entries and an optional-wrapped declared type
/// always classifies as Optional, carrying the wrapped type.
pub proof fn lemma_optional_field(f: FieldView, inner: Seq<char>)
    requires
        unannotated(f),
        type_behind_spec(f.ty, optional_wrapper()) == Some(inner),
    ensures
        classify_spec(f) == Ok::<BuilderFieldView, Seq<DiagnosticView>>(
            BuilderFieldView::Optional { ident: f.name, ty: inner },
        ),
{
    assert(err_parts(attrs_parsed(f.attrs)) =~= Seq::<DiagnosticView>::empty());
    assert(ok_parts(attrs_parsed(f.attrs)) =~= Seq::<Seq<char>>::empty());
}

/// A field with at least one well-formed alias and a container-shaped
/// declared type classifies as Multi: the aliases are kept as declared, in
/// order, and the bulk-replace setter is emitted exactly when no alias
/// equals the field's own name.
pub proof fn lemma_multi_field(f: FieldView, aliases: Seq<Seq<char>>, elem: Seq<char>)
    requires
        parse_each_spec(f.attrs) == Ok::<Seq<Seq<char>>, Seq<DiagnosticView>>(aliases),
        aliases.len() > 0,
        type_behind_spec(f.ty, multi_container()) == Some(elem),
    ensures
        classify_spec(f) == Ok::<BuilderFieldView, Seq<DiagnosticView>>(
            BuilderFieldView::Multi {
                ident: f.name,
                attrs: aliases,
                with_set_all: !aliases.contains(f.name),
                ty: f.ty.text,
                elem_ty: elem,
            },
        ),
{
}

/// A field with at least one well-formed alias whose declared type does not
/// match the container shape never falls back silently: it fails with
/// exactly the type-mismatch diagnostic naming the field and its type.
pub proof fn lemma_each_type_mismatch(f: FieldView, aliases: Seq<Seq<char>>)
    requires
        parse_each_spec(f.attrs) == Ok::<Seq<Seq<char>>, Seq<DiagnosticView>>(aliases),
        aliases.len() > 0,
        type_behind_spec(f.ty, multi_container()) is None,
    ensures
        classify_spec(f) == Err::<BuilderFieldView, Seq<DiagnosticView>>(seq![mismatch_diag(f)]),
{
}

/// The parse of one entry of one recognized annotation appears in the parse
/// of the whole annotation list.
proof fn lemma_attrs_parsed_contains(attrs: Seq<AttrView>, i: int, j: int)
    requires
        0 <= i < attrs.len(),
        attrs[i].name == annotation_name(),
        0 <= j < attrs[i].entries.len(),
    ensures
        attrs_parsed(attrs).contains(entry_parsed(attrs[i].entries[j])),
    decreases attrs.len(),
{
    if i == attrs.len() - 1 {
        let prefix = attrs_parsed(attrs.drop_last());
        assert(attr_parsed(attrs[i])[j] == entry_parsed(attrs[i].entries[j]));
        assert(attrs_parsed(attrs)[prefix.len() + j] == entry_parsed(attrs[i].entries[j]));
    } else {
        lemma_attrs_parsed_contains(attrs.drop_last(), i, j);
        assert(attrs.drop_last()[i] == attrs[i]);
        let x = entry_parsed(attrs[i].entries[j]);
        let k = choose|k: int|
            0 <= k < attrs_parsed(attrs.drop_last()).len() && attrs_parsed(attrs.drop_last())[k]
                == x;
        assert(attrs_parsed(attrs)[k] == x);
    }
}

/// Every malformed entry across a field's annotations is reported: the
/// parse fails and carries that entry's diagnostic, whose message quotes
/// the expected form — for every such occurrence, not just the first.
pub proof fn lemma_every_malformed_entry_reported(attrs: Seq<AttrView>, i: int, j: int)
    requires
        0 <= i < attrs.len(),
        attrs[i].name == annotation_name(),
        0 <= j < attrs[i].entries.len(),
        entry_parsed(attrs[i].entries[j]) is Err,
    ensures
        parse_each_spec(attrs) is Err,
        parse_each_spec(attrs)->Err_0.contains(entry_parsed(attrs[i].entries[j])->Err_0),
        entry_parsed(attrs[i].entries[j])->Err_0.message == each_expected_message(),
{
    lemma_attrs_parsed_contains(attrs, i, j);
    let parsed = attrs_parsed(attrs);
    let x = entry_parsed(attrs[i].entries[j]);
    let k = choose|k: int| 0 <= k < parsed.len() && parsed[k] == x;
    lemma_err_parts_exists(parsed);
    lemma_err_parts_contains(parsed, k);
    match attrs[i].entries[j] {
        EntryView::KeyValue { .. } => {},
        EntryView::Malformed { .. } => {},
    }
}

} // verus!
