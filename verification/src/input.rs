//! The input model handed over by the front end, and the diagnostics handed
//! back: a record is an ordered list of named fields, each with a structural
//! descriptor of its written type and the raw entries of its annotations.
//!
//! Nothing here resolves aliases or checks bounds: type shapes are matched
//! purely syntactically on the written type, and annotation entries arrive
//! as they were written, well-formed or not.

use vstd::prelude::*;

use crate::field::{classify_spec, BuilderField, BuilderFieldView};
use crate::helpers::{
    collect_errors, collected, err_parts, lemma_err_parts_exists, lemma_parts_dv, result_dv,
    results_dv, seq_dv,
};

verus! {

/// A structural descriptor of a field's written type: its full written form,
/// plus a one-level shape used for wrapper matching.
#[derive(Debug, PartialEq)]
pub struct Ty {
    /// The type as written, for descriptors that carry the type through.
    pub text: String,
    /// The one-level structural shape of the written type.
    pub shape: Shape,
}

/// The one-level shape of a written type.
#[derive(Debug, PartialEq)]
pub enum Shape {
    /// A plain (unqualified) path type; `name` is the identifier of its final
    /// segment and `args` its angle-bracketed arguments, `None` when the
    /// segment has no angle brackets.
    Named { name: String, args: Option<Vec<Arg>> },
    /// Any other written type (qualified path, reference, tuple, ...).
    Other,
}

/// One angle-bracketed argument of a written type.
#[derive(Debug, PartialEq)]
pub enum Arg {
    /// A type argument, by its written form.
    TypeArg(String),
    /// A non-type argument (lifetime or constant).
    OtherArg,
}

/// One entry inside a field annotation, as the front end tokenized it.
#[derive(Debug, PartialEq)]
pub enum Entry {
    /// An entry written as `key = "value"` with a string literal value.
    KeyValue { key: String, value: String, span: u64 },
    /// Anything else inside the annotation (no `=`, a non-string literal, ...).
    Malformed { span: u64 },
}

/// One raw annotation on a field: its outer name and its nested entries.
#[derive(Debug, PartialEq)]
pub struct Attr {
    /// The outer name of the annotation.
    pub name: String,
    /// The nested entries, in written order.
    pub entries: Vec<Entry>,
}

/// One field of the input record.
#[derive(Debug, PartialEq)]
pub struct Field {
    /// The field's name.
    pub name: String,
    /// The field's declared type, structurally described.
    pub ty: Ty,
    /// The raw annotations on the field, in written order.
    pub attrs: Vec<Attr>,
    /// A reference to the field's source location, for diagnostics.
    pub span: u64,
}

/// The record whose companion builder is to be generated.
#[derive(Debug, PartialEq)]
pub struct Record {
    /// The record's name.
    pub name: String,
    /// The record's fields, in declaration order.
    pub fields: Vec<Field>,
}

/// One located validation failure, independently actionable.
#[derive(Debug, PartialEq)]
pub struct Diagnostic {
    /// A reference to the offending source location.
    pub span: u64,
    /// A human-readable description of the failure.
    pub message: String,
}

/// Mathematical image of [`Ty`].
pub struct TyView {
    pub text: Seq<char>,
    pub shape: ShapeView,
}

/// Mathematical image of [`Shape`].
pub enum ShapeView {
    Named { name: Seq<char>, args: Option<Seq<ArgView>> },
    Other,
}

/// Mathematical image of [`Arg`].
pub enum ArgView {
    TypeArg(Seq<char>),
    OtherArg,
}

/// Mathematical image of [`Entry`].
pub enum EntryView {
    KeyValue { key: Seq<char>, value: Seq<char>, span: u64 },
    Malformed { span: u64 },
}

/// Mathematical image of [`Attr`].
pub struct AttrView {
    pub name: Seq<char>,
    pub entries: Seq<EntryView>,
}

/// Mathematical image of [`Field`].
pub struct FieldView {
    pub name: Seq<char>,
    pub ty: TyView,
    pub attrs: Seq<AttrView>,
    pub span: u64,
}

/// Mathematical image of [`Record`].
pub struct RecordView {
    pub name: Seq<char>,
    pub fields: Seq<FieldView>,
}

/// Mathematical image of [`Diagnostic`].
pub struct DiagnosticView {
    pub span: u64,
    pub message: Seq<char>,
}

impl DeepView for Ty {
    type V = TyView;

    open spec fn deep_view(&self) -> TyView {
        TyView { text: self.text@, shape: self.shape.deep_view() }
    }
}

impl DeepView for Shape {
    type V = ShapeView;

    open spec fn deep_view(&self) -> ShapeView {
        match self {
            Shape::Named { name, args } => ShapeView::Named {
                name: name@,
                args: args.deep_view(),
            },
            Shape::Other => ShapeView::Other,
        }
    }
}

impl DeepView for Arg {
    type V = ArgView;

    open spec fn deep_view(&self) -> ArgView {
        match self {
            Arg::TypeArg(t) => ArgView::TypeArg(t@),
            Arg::OtherArg => ArgView::OtherArg,
        }
    }
}

impl DeepView for Entry {
    type V = EntryView;

    open spec fn deep_view(&self) -> EntryView {
        match self {
            Entry::KeyValue { key, value, span } => EntryView::KeyValue {
                key: key@,
                value: value@,
                span: *span,
            },
            Entry::Malformed { span } => EntryView::Malformed { span: *span },
        }
    }
}

impl DeepView for Attr {
    type V = AttrView;

    open spec fn deep_view(&self) -> AttrView {
        AttrView { name: self.name@, entries: self.entries.deep_view() }
    }
}

impl DeepView for Field {
    type V = FieldView;

    open spec fn deep_view(&self) -> FieldView {
        FieldView {
            name: self.name@,
            ty: self.ty.deep_view(),
            attrs: self.attrs.deep_view(),
            span: self.span,
        }
    }
}

impl DeepView for Record {
    type V = RecordView;

    open spec fn deep_view(&self) -> RecordView {
        RecordView { name: self.name@, fields: self.fields.deep_view() }
    }
}

impl DeepView for Diagnostic {
    type V = DiagnosticView;

    open spec fn deep_view(&self) -> DiagnosticView {
        DiagnosticView { span: self.span, message: self.message@ }
    }
}

/// A record with every field classified: what the code emitter consumes.
#[derive(Debug, PartialEq)]
pub struct Input {
    /// The record's name.
    pub ident: String,
    /// The classified fields, in declaration order.
    pub fields: Vec<BuilderField>,
}

/// Mathematical image of [`Input`].
pub struct InputView {
    pub ident: Seq<char>,
    pub fields: Seq<BuilderFieldView>,
}

impl DeepView for Input {
    type V = InputView;

    open spec fn deep_view(&self) -> InputView {
        InputView { ident: self.ident@, fields: self.fields.deep_view() }
    }
}

/// The classification of every field of a record, in declaration order.
pub open spec fn classify_results(fs: Seq<FieldView>) -> Seq<
    Result<BuilderFieldView, Seq<DiagnosticView>>,
> {
    fs.map_values(|f: FieldView| classify_spec(f))
}

/// What aggregating a whole record yields: the ordered list of classified
/// fields if every field classifies, otherwise the full ordered list of
/// diagnostics across all failing fields, concatenated in declaration
/// order.
pub open spec fn parse_input_spec(r: RecordView) -> Result<InputView, Seq<DiagnosticView>> {
    match collected(classify_results(r.fields)) {
        Ok(fields) => Ok(InputView { ident: r.name, fields }),
        Err(diag_lists) => Err(diag_lists.flatten()),
    }
}

/// Concatenates per-field diagnostic lists in order.
fn flatten_diags(lists: Vec<Vec<Diagnostic>>) -> (r: Vec<Diagnostic>)
    ensures
        r.deep_view() == lists.deep_view().flatten(),
{
    let ghost orig: Seq<Seq<DiagnosticView>> = lists.deep_view();
    let mut rest = lists;
    let mut out: Vec<Diagnostic> = Vec::new();
    let mut i: usize = 0;
    let n = rest.len();
    proof {
        assert(orig.len() == n);
        assert(rest.deep_view() =~= orig.skip(0));
        assert(out.deep_view() =~= orig.take(0).flatten_alt());
    }
    while rest.len() > 0
        invariant
            orig.len() <= usize::MAX,
            i + rest.len() == orig.len(),
            rest.deep_view() == orig.skip(i as int),
            out.deep_view() == orig.take(i as int).flatten_alt(),
        decreases rest.len(),
    {
        let ghost rest_pre_dv = rest.deep_view();
        let ghost rest_pre = rest@;
        let mut lst = rest.remove(0);
        proof {
            assert(lst == rest_pre[0]);
            assert(lst.deep_view() == rest_pre_dv[0]);
            assert(rest_pre_dv[0] == orig[i as int]);
            assert(rest.deep_view() =~= rest_pre_dv.skip(1));
            assert(rest_pre_dv.skip(1) =~= orig.skip(i as int + 1));
        }
        let ghost out_pre = out.deep_view();
        let ghost lst_dv = lst.deep_view();
        out.append(&mut lst);
        i = i + 1;
        proof {
            assert(out.deep_view() =~= out_pre + lst_dv);
            assert(orig.take(i as int).drop_last() =~= orig.take(i as int - 1));
            assert(orig.take(i as int).last() == orig[i as int - 1]);
        }
    }
    proof {
        assert(orig.take(orig.len() as int) =~= orig);
        orig.lemma_flatten_and_flatten_alt_are_equivalent();
    }
    out
}

/// Classifies every field of a record independently and aggregates: never
/// stops at the first failing field, so the failure carries one diagnostic
/// list entry per offending annotation entry or field across the whole
/// record.
pub fn parse_input(record: &Record) -> (r: Result<Input, Vec<Diagnostic>>)
    ensures
        result_dv(r) == parse_input_spec(record.deep_view()),
{
    let ghost fields_view: Seq<FieldView> = record.deep_view().fields;
    let mut results: Vec<Result<BuilderField, Vec<Diagnostic>>> = Vec::new();
    let mut i: usize = 0;
    proof {
        assert(results_dv(results@) =~= classify_results(fields_view.take(0)));
    }
    while i < record.fields.len()
        invariant
            i <= record.fields.len(),
            fields_view == record.deep_view().fields,
            results_dv(results@) == classify_results(fields_view.take(i as int)),
        decreases record.fields.len() - i,
    {
        let classified = BuilderField::try_from_field(&record.fields[i]);
        proof {
            assert(record.fields[i as int].deep_view() == fields_view[i as int]);
        }
        let ghost pre = results_dv(results@);
        results.push(classified);
        i = i + 1;
        proof {
            assert(results_dv(results@) =~= pre.push(result_dv(results@.last())));
            assert(classify_results(fields_view.take(i as int)) =~= classify_results(
                fields_view.take(i as int - 1),
            ).push(classify_spec(fields_view[i as int - 1])));
        }
    }
    proof {
        assert(fields_view.take(record.fields.len() as int) =~= fields_view);
        lemma_parts_dv(results@);
    }
    match collect_errors(results) {
        Ok(fields) => {
            proof {
                assert(seq_dv(fields@) =~= fields.deep_view());
            }
            Ok(Input { ident: record.name.clone(), fields })
        },
        Err(diag_lists) => {
            proof {
                assert(seq_dv(diag_lists@) =~= diag_lists.deep_view());
            }
            Err(flatten_diags(diag_lists))
        },
    }
}

/// The diagnostics one field contributes to the aggregated failure:
/// nothing when it classifies, its full diagnostic list when it does not.
pub open spec fn field_diags(f: FieldView) -> Seq<DiagnosticView> {
    match classify_spec(f) {
        Ok(_) => Seq::empty(),
        Err(diags) => diags,
    }
}

/// The failure lists of the per-field classifications, flattened, equal
/// the per-field diagnostic contributions, flattened: fields that classify
/// contribute nothing, and nothing else is dropped.
proof fn lemma_err_diags_flatten(fs: Seq<FieldView>)
    ensures
        err_parts(classify_results(fs)).flatten_alt() == fs.map_values(
            |f: FieldView| field_diags(f),
        ).flatten_alt(),
    decreases fs.len(),
{
    if fs.len() == 0 {
        assert(classify_results(fs) =~= Seq::<Result<BuilderFieldView, Seq<DiagnosticView>>>::empty());
        assert(fs.map_values(|f: FieldView| field_diags(f)) =~= Seq::<Seq<DiagnosticView>>::empty());
    } else {
        lemma_err_diags_flatten(fs.drop_last());
        let results = classify_results(fs);
        let prev_results = classify_results(fs.drop_last());
        assert(results.drop_last() =~= prev_results);
        assert(results.last() == classify_spec(fs.last()));
        let diag_lists = fs.map_values(|f: FieldView| field_diags(f));
        let prev_lists = fs.drop_last().map_values(|f: FieldView| field_diags(f));
        assert(diag_lists.drop_last() =~= prev_lists);
        assert(diag_lists.last() == field_diags(fs.last()));
        match classify_spec(fs.last()) {
            Ok(_) => {
                assert(err_parts(results) == err_parts(prev_results));
                assert(diag_lists.flatten_alt() == prev_lists.flatten_alt() + field_diags(
                    fs.last(),
                ));
                assert(diag_lists.flatten_alt() =~= prev_lists.flatten_alt());
            },
            Err(diags) => {
                assert(err_parts(results) == err_parts(prev_results).push(diags));
                assert(err_parts(results).drop_last() == err_parts(prev_results));
                assert(err_parts(results).flatten_alt() == err_parts(
                    prev_results,
                ).flatten_alt() + diags);
            },
        }
    }
}

/// The error aggregator's law: aggregation fails exactly when some field
/// fails to classify, and the aggregated failure is every failing field's
/// full diagnostic list, concatenated in declaration order — no field's
/// diagnostics are lost, whatever the mix of failures.
pub proof fn lemma_error_aggregation(r: RecordView)
    ensures
        parse_input_spec(r) is Err <==> exists|i: int|
            0 <= i < r.fields.len() && classify_spec(#[trigger] r.fields[i]) is Err,
        parse_input_spec(r) is Err ==> parse_input_spec(r)->Err_0 == r.fields.map_values(
            |f: FieldView| field_diags(f),
        ).flatten(),
{
    let results = classify_results(r.fields);
    lemma_err_parts_exists(results);
    assert(forall|i: int|
        0 <= i < r.fields.len() ==> results[i] == classify_spec(#[trigger] r.fields[i]));
    if err_parts(results).len() > 0 {
        lemma_err_diags_flatten(r.fields);
        err_parts(results).lemma_flatten_and_flatten_alt_are_equivalent();
        r.fields.map_values(
            |f: FieldView| field_diags(f),
        ).lemma_flatten_and_flatten_alt_are_equivalent();
    }
}

} // verus!
