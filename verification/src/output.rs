//! The code emitter: turns a classified record into abstract descriptors of
//! the four generated artifacts — the builder's storage layout, its
//! zero-value constructor, its setter and accumulator methods, and its
//! guarded finalize method. Descriptors carry slot names, method names and
//! written types; rendering them as target-language text is the back end's
//! concern.

use vstd::prelude::*;

use crate::field::{
    classify_spec, lemma_optional_field, lemma_plain_field_mandatory, optional_wrapper,
    type_behind_spec, unannotated, BuilderField, BuilderFieldView,
};
use crate::helpers::{lemma_ok_parts_all_ok, ok_parts};
use crate::input::{
    classify_results, parse_input_spec, DiagnosticView, FieldView, Input, InputView, RecordView,
};
use vstd::string::StringExecFns;

verus! {

/// The type of one builder storage slot.
#[derive(Debug, PartialEq)]
pub enum SlotTy {
    /// An optional-valued slot over the written type, absent by default.
    OptionOf(String),
    /// An accumulating slot of the written container type, empty by default.
    Container(String),
}

/// One storage slot of the builder type.
#[derive(Debug, PartialEq)]
pub struct SlotDesc {
    /// The slot's name: the field it stores.
    pub name: String,
    /// The slot's type.
    pub ty: SlotTy,
}

/// The builder type's storage layout.
#[derive(Debug, PartialEq)]
pub struct BuilderType {
    /// The builder type's name.
    pub name: String,
    /// Its storage slots, one per field, in declaration order.
    pub slots: Vec<SlotDesc>,
}

/// The zero value one slot starts from.
#[derive(Debug, PartialEq)]
pub enum SlotInit {
    /// The slot starts absent.
    Absent,
    /// The slot starts as an empty container.
    Empty,
}

/// The initializer of one slot in the builder's constructor.
#[derive(Debug, PartialEq)]
pub struct InitDesc {
    /// The slot being initialized.
    pub slot: String,
    /// Its zero value.
    pub init: SlotInit,
}

/// The builder's zero-value constructor.
#[derive(Debug, PartialEq)]
pub struct Constructor {
    /// The record type the constructor is attached to.
    pub record: String,
    /// The builder type it produces.
    pub builder: String,
    /// One initializer per slot, in declaration order.
    pub inits: Vec<InitDesc>,
}

/// One generated builder method.
#[derive(Debug, PartialEq)]
pub enum MethodDesc {
    /// A single-value setter: overwrites the slot named after the method
    /// with a present value of the parameter type.
    Setter { name: String, param_ty: String },
    /// A bulk-replace setter: overwrites the whole container slot named
    /// after the method with the parameter.
    BulkSetter { name: String, param_ty: String },
    /// An accumulator: appends one element of `elem_ty` to the container
    /// slot `slot`; named after one declared alias.
    Accumulator { name: String, slot: String, elem_ty: String },
}

/// The builder's generated method set.
#[derive(Debug, PartialEq)]
pub struct Setters {
    /// The builder type the methods are attached to.
    pub builder: String,
    /// The methods: first the per-field setters in declaration order, then
    /// the accumulators in declaration order, alias order within a field.
    pub methods: Vec<MethodDesc>,
}

/// What the finalize method does with one slot, in declaration order.
#[derive(Debug, PartialEq)]
pub enum BuildStep {
    /// Move the value out if present, resetting the slot; fail with
    /// `message` if the slot is absent.
    TakeRequired { slot: String, message: String },
    /// Move the current value out as-is, resetting the slot to its default.
    TakeDefault { slot: String },
}

/// The builder's guarded finalize method.
#[derive(Debug, PartialEq)]
pub struct BuildMethod {
    /// The builder type the method is attached to.
    pub builder: String,
    /// The record type it produces.
    pub record: String,
    /// One step per slot, in declaration order; the first failing required
    /// step determines the failure.
    pub steps: Vec<BuildStep>,
}

/// Mathematical image of [`SlotTy`].
pub enum SlotTyView {
    OptionOf(Seq<char>),
    Container(Seq<char>),
}

/// Mathematical image of [`SlotDesc`].
pub struct SlotDescView {
    pub name: Seq<char>,
    pub ty: SlotTyView,
}

/// Mathematical image of [`BuilderType`].
pub struct BuilderTypeView {
    pub name: Seq<char>,
    pub slots: Seq<SlotDescView>,
}

/// Mathematical image of [`InitDesc`].
pub struct InitDescView {
    pub slot: Seq<char>,
    pub init: SlotInit,
}

/// Mathematical image of [`Constructor`].
pub struct ConstructorView {
    pub record: Seq<char>,
    pub builder: Seq<char>,
    pub inits: Seq<InitDescView>,
}

/// Mathematical image of [`MethodDesc`].
pub enum MethodDescView {
    Setter { name: Seq<char>, param_ty: Seq<char> },
    BulkSetter { name: Seq<char>, param_ty: Seq<char> },
    Accumulator { name: Seq<char>, slot: Seq<char>, elem_ty: Seq<char> },
}

/// Mathematical image of [`Setters`].
pub struct SettersView {
    pub builder: Seq<char>,
    pub methods: Seq<MethodDescView>,
}

/// Mathematical image of [`BuildStep`].
pub enum BuildStepView {
    TakeRequired { slot: Seq<char>, message: Seq<char> },
    TakeDefault { slot: Seq<char> },
}

/// Mathematical image of [`BuildMethod`].
pub struct BuildMethodView {
    pub builder: Seq<char>,
    pub record: Seq<char>,
    pub steps: Seq<BuildStepView>,
}

impl DeepView for SlotTy {
    type V = SlotTyView;

    open spec fn deep_view(&self) -> SlotTyView {
        match self {
            SlotTy::OptionOf(t) => SlotTyView::OptionOf(t@),
            SlotTy::Container(t) => SlotTyView::Container(t@),
        }
    }
}

impl DeepView for SlotDesc {
    type V = SlotDescView;

    open spec fn deep_view(&self) -> SlotDescView {
        SlotDescView { name: self.name@, ty: self.ty.deep_view() }
    }
}

impl DeepView for BuilderType {
    type V = BuilderTypeView;

    open spec fn deep_view(&self) -> BuilderTypeView {
        BuilderTypeView { name: self.name@, slots: self.slots.deep_view() }
    }
}

impl DeepView for SlotInit {
    type V = SlotInit;

    open spec fn deep_view(&self) -> SlotInit {
        *self
    }
}

impl DeepView for InitDesc {
    type V = InitDescView;

    open spec fn deep_view(&self) -> InitDescView {
        InitDescView { slot: self.slot@, init: self.init }
    }
}

impl DeepView for Constructor {
    type V = ConstructorView;

    open spec fn deep_view(&self) -> ConstructorView {
        ConstructorView {
            record: self.record@,
            builder: self.builder@,
            inits: self.inits.deep_view(),
        }
    }
}

impl DeepView for MethodDesc {
    type V = MethodDescView;

    open spec fn deep_view(&self) -> MethodDescView {
        match self {
            MethodDesc::Setter { name, param_ty } => MethodDescView::Setter {
                name: name@,
                param_ty: param_ty@,
            },
            MethodDesc::BulkSetter { name, param_ty } => MethodDescView::BulkSetter {
                name: name@,
                param_ty: param_ty@,
            },
            MethodDesc::Accumulator { name, slot, elem_ty } => MethodDescView::Accumulator {
                name: name@,
                slot: slot@,
                elem_ty: elem_ty@,
            },
        }
    }
}

impl DeepView for Setters {
    type V = SettersView;

    open spec fn deep_view(&self) -> SettersView {
        SettersView { builder: self.builder@, methods: self.methods.deep_view() }
    }
}

impl DeepView for BuildStep {
    type V = BuildStepView;

    open spec fn deep_view(&self) -> BuildStepView {
        match self {
            BuildStep::TakeRequired { slot, message } => BuildStepView::TakeRequired {
                slot: slot@,
                message: message@,
            },
            BuildStep::TakeDefault { slot } => BuildStepView::TakeDefault { slot: slot@ },
        }
    }
}

impl DeepView for BuildMethod {
    type V = BuildMethodView;

    open spec fn deep_view(&self) -> BuildMethodView {
        BuildMethodView {
            builder: self.builder@,
            record: self.record@,
            steps: self.steps.deep_view(),
        }
    }
}

/// The builder type's name: the record's name with `Builder` appended.
pub open spec fn builder_ident_spec(ident: Seq<char>) -> Seq<char> {
    ident + "Builder"@
}

/// Derives the builder type's name from the record's.
pub fn builder_ident(input: &Input) -> (r: String)
    ensures
        r@ == builder_ident_spec(input.deep_view().ident),
{
    input.ident.clone().concat("Builder")
}

/// The storage slot one classified field becomes: an optional-valued slot
/// for single-valued fields, an accumulating slot for multi-valued ones.
pub open spec fn slot_of(f: BuilderFieldView) -> SlotDescView {
    match f {
        BuilderFieldView::Mandatory { ident, ty } => SlotDescView {
            name: ident,
            ty: SlotTyView::OptionOf(ty),
        },
        BuilderFieldView::Optional { ident, ty } => SlotDescView {
            name: ident,
            ty: SlotTyView::OptionOf(ty),
        },
        BuilderFieldView::Multi { ident, ty, .. } => SlotDescView {
            name: ident,
            ty: SlotTyView::Container(ty),
        },
    }
}

/// The storage layout the emitter produces for a classified record.
pub open spec fn builder_type_spec(input: InputView) -> BuilderTypeView {
    BuilderTypeView {
        name: builder_ident_spec(input.ident),
        slots: input.fields.map_values(|f: BuilderFieldView| slot_of(f)),
    }
}

/// Emits the builder type's storage layout: one slot per field, in
/// declaration order.
pub fn output_builder_type(input: &Input) -> (r: BuilderType)
    ensures
        r.deep_view() == builder_type_spec(input.deep_view()),
{
    let ghost fields_view: Seq<BuilderFieldView> = input.deep_view().fields;
    let mut slots: Vec<SlotDesc> = Vec::new();
    let mut i: usize = 0;
    proof {
        assert(slots.deep_view() =~= fields_view.take(0).map_values(
            |f: BuilderFieldView| slot_of(f),
        ));
    }
    while i < input.fields.len()
        invariant
            i <= input.fields.len(),
            fields_view == input.deep_view().fields,
            slots.deep_view() == fields_view.take(i as int).map_values(
                |f: BuilderFieldView| slot_of(f),
            ),
        decreases input.fields.len() - i,
    {
        let slot = match &input.fields[i] {
            BuilderField::Mandatory { ident, ty } => SlotDesc {
                name: ident.clone(),
                ty: SlotTy::OptionOf(ty.clone()),
            },
            BuilderField::Optional { ident, ty } => SlotDesc {
                name: ident.clone(),
                ty: SlotTy::OptionOf(ty.clone()),
            },
            BuilderField::Multi { ident, ty, .. } => SlotDesc {
                name: ident.clone(),
                ty: SlotTy::Container(ty.clone()),
            },
        };
        proof {
            assert(input.fields[i as int].deep_view() == fields_view[i as int]);
            assert(slot.deep_view() == slot_of(fields_view[i as int]));
        }
        let ghost pre = slots.deep_view();
        slots.push(slot);
        i = i + 1;
        proof {
            assert(slots.deep_view() =~= pre.push(slot_of(fields_view[i as int - 1])));
            assert(slots.deep_view() =~= fields_view.take(i as int).map_values(
                |f: BuilderFieldView| slot_of(f),
            ));
        }
    }
    proof {
        assert(fields_view.take(input.fields.len() as int) =~= fields_view);
    }
    BuilderType { name: builder_ident(input), slots }
}

/// The zero value one classified field's slot starts from.
pub open spec fn init_of(f: BuilderFieldView) -> InitDescView {
    match f {
        BuilderFieldView::Mandatory { ident, .. } => InitDescView {
            slot: ident,
            init: SlotInit::Absent,
        },
        BuilderFieldView::Optional { ident, .. } => InitDescView {
            slot: ident,
            init: SlotInit::Absent,
        },
        BuilderFieldView::Multi { ident, .. } => InitDescView {
            slot: ident,
            init: SlotInit::Empty,
        },
    }
}

/// The zero-value constructor the emitter produces.
pub open spec fn constructor_spec(input: InputView) -> ConstructorView {
    ConstructorView {
        record: input.ident,
        builder: builder_ident_spec(input.ident),
        inits: input.fields.map_values(|f: BuilderFieldView| init_of(f)),
    }
}

/// Emits the builder's zero-value constructor: every slot at its default —
/// absent for optional-valued slots, empty for accumulating ones.
pub fn output_builder_constructor(input: &Input) -> (r: Constructor)
    ensures
        r.deep_view() == constructor_spec(input.deep_view()),
{
    let ghost fields_view: Seq<BuilderFieldView> = input.deep_view().fields;
    let mut inits: Vec<InitDesc> = Vec::new();
    let mut i: usize = 0;
    proof {
        assert(inits.deep_view() =~= fields_view.take(0).map_values(
            |f: BuilderFieldView| init_of(f),
        ));
    }
    while i < input.fields.len()
        invariant
            i <= input.fields.len(),
            fields_view == input.deep_view().fields,
            inits.deep_view() == fields_view.take(i as int).map_values(
                |f: BuilderFieldView| init_of(f),
            ),
        decreases input.fields.len() - i,
    {
        let init = match &input.fields[i] {
            BuilderField::Mandatory { ident, .. } => InitDesc {
                slot: ident.clone(),
                init: SlotInit::Absent,
            },
            BuilderField::Optional { ident, .. } => InitDesc {
                slot: ident.clone(),
                init: SlotInit::Absent,
            },
            BuilderField::Multi { ident, .. } => InitDesc {
                slot: ident.clone(),
                init: SlotInit::Empty,
            },
        };
        proof {
            assert(input.fields[i as int].deep_view() == fields_view[i as int]);
            assert(init.deep_view() == init_of(fields_view[i as int]));
        }
        let ghost pre = inits.deep_view();
        inits.push(init);
        i = i + 1;
        proof {
            assert(inits.deep_view() =~= pre.push(init_of(fields_view[i as int - 1])));
            assert(inits.deep_view() =~= fields_view.take(i as int).map_values(
                |f: BuilderFieldView| init_of(f),
            ));
        }
    }
    proof {
        assert(fields_view.take(input.fields.len() as int) =~= fields_view);
    }
    Constructor { record: input.ident.clone(), builder: builder_ident(input), inits }
}

/// The setter section one classified field contributes: a single-value
/// setter for single-valued fields, a bulk-replace setter for a
/// multi-valued field unless one of its aliases equals the field's own
/// name, in which case none.
pub open spec fn setter_part(f: BuilderFieldView) -> Seq<MethodDescView> {
    match f {
        BuilderFieldView::Mandatory { ident, ty } => seq![
            MethodDescView::Setter { name: ident, param_ty: ty },
        ],
        BuilderFieldView::Optional { ident, ty } => seq![
            MethodDescView::Setter { name: ident, param_ty: ty },
        ],
        BuilderFieldView::Multi { ident, with_set_all, ty, .. } => {
            if with_set_all {
                seq![MethodDescView::BulkSetter { name: ident, param_ty: ty }]
            } else {
                Seq::empty()
            }
        },
    }
}

/// The accumulator section one classified field contributes: one
/// accumulator per declared alias, in alias order; repeated aliases repeat.
pub open spec fn accum_part(f: BuilderFieldView) -> Seq<MethodDescView> {
    match f {
        BuilderFieldView::Multi { ident, attrs, elem_ty, .. } => attrs.map_values(
            |alias: Seq<char>|
                MethodDescView::Accumulator { name: alias, slot: ident, elem_ty },
        ),
        _ => Seq::empty(),
    }
}

/// The full generated method list: every field's setter section in
/// declaration order, then every field's accumulator section in declaration
/// order.
pub open spec fn setters_methods_spec(fields: Seq<BuilderFieldView>) -> Seq<MethodDescView> {
    fields.map_values(|f: BuilderFieldView| setter_part(f)).flatten() + fields.map_values(
        |f: BuilderFieldView| accum_part(f),
    ).flatten()
}

/// The method set the emitter produces.
pub open spec fn setters_spec(input: InputView) -> SettersView {
    SettersView {
        builder: builder_ident_spec(input.ident),
        methods: setters_methods_spec(input.fields),
    }
}

/// Emits the builder's setter and accumulator methods.
pub fn output_setters(input: &Input) -> (r: Setters)
    ensures
        r.deep_view() == setters_spec(input.deep_view()),
{
    let ghost fields_view: Seq<BuilderFieldView> = input.deep_view().fields;
    let mut methods: Vec<MethodDesc> = Vec::new();
    let mut i: usize = 0;
    proof {
        assert(methods.deep_view() =~= fields_view.take(0).map_values(
            |f: BuilderFieldView| setter_part(f),
        ).flatten_alt());
    }
    while i < input.fields.len()
        invariant
            i <= input.fields.len(),
            fields_view == input.deep_view().fields,
            methods.deep_view() == fields_view.take(i as int).map_values(
                |f: BuilderFieldView| setter_part(f),
            ).flatten_alt(),
        decreases input.fields.len() - i,
    {
        let ghost pre = methods.deep_view();
        match &input.fields[i] {
            BuilderField::Mandatory { ident, ty } => {
                methods.push(MethodDesc::Setter { name: ident.clone(), param_ty: ty.clone() });
            },
            BuilderField::Optional { ident, ty } => {
                methods.push(MethodDesc::Setter { name: ident.clone(), param_ty: ty.clone() });
            },
            BuilderField::Multi { ident, with_set_all, ty, .. } => {
                if *with_set_all {
                    methods.push(
                        MethodDesc::BulkSetter { name: ident.clone(), param_ty: ty.clone() },
                    );
                }
            },
        };
        proof {
            assert(input.fields[i as int].deep_view() == fields_view[i as int]);
            assert(methods.deep_view() =~= pre + setter_part(fields_view[i as int]));
        }
        i = i + 1;
        proof {
            let parts = fields_view.take(i as int).map_values(
                |f: BuilderFieldView| setter_part(f),
            );
            assert(parts.drop_last() =~= fields_view.take(i as int - 1).map_values(
                |f: BuilderFieldView| setter_part(f),
            ));
            assert(parts.last() == setter_part(fields_view[i as int - 1]));
            assert(methods.deep_view() =~= parts.flatten_alt());
        }
    }
    proof {
        assert(fields_view.take(input.fields.len() as int) =~= fields_view);
    }
    let ghost setter_section: Seq<MethodDescView> = methods.deep_view();
    let mut i: usize = 0;
    proof {
        assert(methods.deep_view() =~= setter_section + fields_view.take(0).map_values(
            |f: BuilderFieldView| accum_part(f),
        ).flatten_alt());
    }
    while i < input.fields.len()
        invariant
            i <= input.fields.len(),
            fields_view == input.deep_view().fields,
            setter_section == fields_view.map_values(
                |f: BuilderFieldView| setter_part(f),
            ).flatten_alt(),
            methods.deep_view() == setter_section + fields_view.take(i as int).map_values(
                |f: BuilderFieldView| accum_part(f),
            ).flatten_alt(),
        decreases input.fields.len() - i,
    {
        let ghost pre = methods.deep_view();
        match &input.fields[i] {
            BuilderField::Multi { ident, attrs, elem_ty, .. } => {
                let ghost ident_view: Seq<char> = ident@;
                let ghost elem_view: Seq<char> = elem_ty@;
                let ghost attrs_view: Seq<Seq<char>> = attrs.deep_view();
                let mut j: usize = 0;
                proof {
                    assert(methods.deep_view() =~= pre + attrs_view.take(0).map_values(
                        |alias: Seq<char>|
                            MethodDescView::Accumulator {
                                name: alias,
                                slot: ident_view,
                                elem_ty: elem_view,
                            },
                    ));
                }
                while j < attrs.len()
                    invariant
                        j <= attrs.len(),
                        attrs_view == attrs.deep_view(),
                        ident_view == ident@,
                        elem_view == elem_ty@,
                        methods.deep_view() == pre + attrs_view.take(j as int).map_values(
                            |alias: Seq<char>|
                                MethodDescView::Accumulator {
                                    name: alias,
                                    slot: ident_view,
                                    elem_ty: elem_view,
                                },
                        ),
                    decreases attrs.len() - j,
                {
                    let ghost inner_pre = methods.deep_view();
                    methods.push(
                        MethodDesc::Accumulator {
                            name: attrs[j].clone(),
                            slot: ident.clone(),
                            elem_ty: elem_ty.clone(),
                        },
                    );
                    j = j + 1;
                    proof {
                        assert(attrs[j as int - 1]@ == attrs_view[j as int - 1]);
                        assert(methods.deep_view() =~= inner_pre.push(
                            MethodDescView::Accumulator {
                                name: attrs_view[j as int - 1],
                                slot: ident_view,
                                elem_ty: elem_view,
                            },
                        ));
                        assert(methods.deep_view() =~= pre + attrs_view.take(j as int).map_values(
                            |alias: Seq<char>|
                                MethodDescView::Accumulator {
                                    name: alias,
                                    slot: ident_view,
                                    elem_ty: elem_view,
                                },
                        ));
                    }
                }
                proof {
                    assert(attrs_view.take(attrs.len() as int) =~= attrs_view);
                    assert(input.fields[i as int].deep_view() == fields_view[i as int]);
                    assert(attrs_view.map_values(
                        |alias: Seq<char>|
                            MethodDescView::Accumulator {
                                name: alias,
                                slot: ident_view,
                                elem_ty: elem_view,
                            },
                    ) =~= accum_part(fields_view[i as int]));
                    assert(methods.deep_view() =~= pre + accum_part(fields_view[i as int]));
                }
            },
            _ => {
                proof {
                    assert(input.fields[i as int].deep_view() == fields_view[i as int]);
                    assert(accum_part(fields_view[i as int]) =~= Seq::<MethodDescView>::empty());
                    assert(methods.deep_view() =~= pre + accum_part(fields_view[i as int]));
                }
            },
        };
        i = i + 1;
        proof {
            let parts = fields_view.take(i as int).map_values(
                |f: BuilderFieldView| accum_part(f),
            );
            assert(parts.drop_last() =~= fields_view.take(i as int - 1).map_values(
                |f: BuilderFieldView| accum_part(f),
            ));
            assert(parts.last() == accum_part(fields_view[i as int - 1]));
            assert(methods.deep_view() =~= setter_section + parts.flatten_alt());
        }
    }
    proof {
        assert(fields_view.take(input.fields.len() as int) =~= fields_view);
        fields_view.map_values(
            |f: BuilderFieldView| setter_part(f),
        ).lemma_flatten_and_flatten_alt_are_equivalent();
        fields_view.map_values(
            |f: BuilderFieldView| accum_part(f),
        ).lemma_flatten_and_flatten_alt_are_equivalent();
    }
    Setters { builder: builder_ident(input), methods }
}

/// The message finalize fails with when the slot of `ident` is absent.
pub open spec fn not_set_message(ident: Seq<char>) -> Seq<char> {
    ident + " not set"@
}

/// The finalize step one classified field becomes: a guarded move for a
/// mandatory field, a plain move-out-and-reset for the others.
pub open spec fn step_of(f: BuilderFieldView) -> BuildStepView {
    match f {
        BuilderFieldView::Mandatory { ident, .. } => BuildStepView::TakeRequired {
            slot: ident,
            message: not_set_message(ident),
        },
        BuilderFieldView::Optional { ident, .. } => BuildStepView::TakeDefault { slot: ident },
        BuilderFieldView::Multi { ident, .. } => BuildStepView::TakeDefault { slot: ident },
    }
}

/// The finalize method the emitter produces.
pub open spec fn build_method_spec(input: InputView) -> BuildMethodView {
    BuildMethodView {
        builder: builder_ident_spec(input.ident),
        record: input.ident,
        steps: input.fields.map_values(|f: BuilderFieldView| step_of(f)),
    }
}

/// Emits the builder's guarded finalize method: one step per slot in
/// declaration order, each moving the slot's value out and resetting it,
/// the mandatory ones guarded by a located "not set" failure.
pub fn output_build_method(input: &Input) -> (r: BuildMethod)
    ensures
        r.deep_view() == build_method_spec(input.deep_view()),
{
    let ghost fields_view: Seq<BuilderFieldView> = input.deep_view().fields;
    let mut steps: Vec<BuildStep> = Vec::new();
    let mut i: usize = 0;
    proof {
        assert(steps.deep_view() =~= fields_view.take(0).map_values(
            |f: BuilderFieldView| step_of(f),
        ));
    }
    while i < input.fields.len()
        invariant
            i <= input.fields.len(),
            fields_view == input.deep_view().fields,
            steps.deep_view() == fields_view.take(i as int).map_values(
                |f: BuilderFieldView| step_of(f),
            ),
        decreases input.fields.len() - i,
    {
        let step = match &input.fields[i] {
            BuilderField::Mandatory { ident, .. } => BuildStep::TakeRequired {
                slot: ident.clone(),
                message: ident.clone().concat(" not set"),
            },
            BuilderField::Optional { ident, .. } => BuildStep::TakeDefault {
                slot: ident.clone(),
            },
            BuilderField::Multi { ident, .. } => BuildStep::TakeDefault { slot: ident.clone() },
        };
        proof {
            assert(input.fields[i as int].deep_view() == fields_view[i as int]);
            assert(step.deep_view() == step_of(fields_view[i as int]));
        }
        let ghost pre = steps.deep_view();
        steps.push(step);
        i = i + 1;
        proof {
            assert(steps.deep_view() =~= pre.push(step_of(fields_view[i as int - 1])));
            assert(steps.deep_view() =~= fields_view.take(i as int).map_values(
                |f: BuilderFieldView| step_of(f),
            ));
        }
    }
    proof {
        assert(fields_view.take(input.fields.len() as int) =~= fields_view);
    }
    BuildMethod {
        builder: builder_ident(input),
        record: input.ident.clone(),
        steps,
    }
}

/// The bulk-replace setter law for one multi-valued field: its setter
/// section holds exactly one bulk-replace setter when no alias equals the
/// field's own name, and none at all when one does; its accumulator
/// section holds one accumulator per declared alias, in order, either way.
pub proof fn lemma_bulk_setter_emission(f: BuilderFieldView)
    requires
        f is Multi,
    ensures
        f->Multi_with_set_all ==> setter_part(f) == (seq![
            MethodDescView::BulkSetter { name: f->Multi_ident, param_ty: f->Multi_ty },
        ]),
        !f->Multi_with_set_all ==> setter_part(f) == Seq::<MethodDescView>::empty(),
        accum_part(f).len() == f->Multi_attrs.len(),
        forall|k: int| #![auto]
            0 <= k < f->Multi_attrs.len() ==> accum_part(f)[k] == (MethodDescView::Accumulator {
                name: f->Multi_attrs[k],
                slot: f->Multi_ident,
                elem_ty: f->Multi_elem_ty,
            }),
{
}

/// The plain-record law: a record with only plain fields — no annotation
/// entries, no optional wrapper — classifies wholly Mandatory, and its
/// finalize method guards every slot with its own located "not set"
/// failure, in declaration order.
pub proof fn lemma_plain_record(r: RecordView)
    requires
        forall|i: int|
            0 <= i < r.fields.len() ==> unannotated(#[trigger] r.fields[i]) && type_behind_spec(
                r.fields[i].ty,
                optional_wrapper(),
            ) is None,
    ensures
        parse_input_spec(r) is Ok,
        parse_input_spec(r)->Ok_0.fields == r.fields.map_values(
            |f: FieldView| BuilderFieldView::Mandatory { ident: f.name, ty: f.ty.text },
        ),
        build_method_spec(parse_input_spec(r)->Ok_0).steps == r.fields.map_values(
            |f: FieldView|
                BuildStepView::TakeRequired { slot: f.name, message: not_set_message(f.name) },
        ),
{
    let results = classify_results(r.fields);
    assert forall|i: int| 0 <= i < r.fields.len() implies #[trigger] results[i]
        == Ok::<BuilderFieldView, Seq<DiagnosticView>>(
        BuilderFieldView::Mandatory { ident: r.fields[i].name, ty: r.fields[i].ty.text },
    ) by {
        lemma_plain_field_mandatory(r.fields[i]);
    }
    lemma_ok_parts_all_ok(results);
    let mandatory = r.fields.map_values(
        |f: FieldView| BuilderFieldView::Mandatory { ident: f.name, ty: f.ty.text },
    );
    assert(ok_parts(results) =~= mandatory);
    let input = parse_input_spec(r)->Ok_0;
    assert(input.fields.map_values(|f: BuilderFieldView| step_of(f)) =~= r.fields.map_values(
        |f: FieldView|
            BuildStepView::TakeRequired { slot: f.name, message: not_set_message(f.name) },
    ));
}

/// Whether a method is a bulk-replace setter bearing `ident`.
pub open spec fn is_bulk_named(m: MethodDescView, ident: Seq<char>) -> bool {
    m matches MethodDescView::BulkSetter { name, .. } && name == ident
}

/// How many bulk-replace setters bearing `ident` a method list holds.
pub open spec fn bulk_setter_count(ms: Seq<MethodDescView>, ident: Seq<char>) -> nat
    decreases ms.len(),
{
    if ms.len() == 0 {
        0
    } else {
        bulk_setter_count(ms.drop_last(), ident) + (if is_bulk_named(ms.last(), ident) {
            1nat
        } else {
            0nat
        })
    }
}

/// Counting bulk-replace setters distributes over concatenation.
proof fn lemma_count_add(x: Seq<MethodDescView>, y: Seq<MethodDescView>, ident: Seq<char>)
    ensures
        bulk_setter_count(x + y, ident) == bulk_setter_count(x, ident) + bulk_setter_count(
            y,
            ident,
        ),
    decreases y.len(),
{
    if y.len() == 0 {
        assert(x + y =~= x);
    } else {
        lemma_count_add(x, y.drop_last(), ident);
        assert((x + y).drop_last() =~= x + y.drop_last());
        assert((x + y).last() == y.last());
    }
}

/// A method list none of whose methods is a bulk-replace setter bearing
/// `ident` counts zero.
proof fn lemma_count_zero(ms: Seq<MethodDescView>, ident: Seq<char>)
    requires
        forall|i: int| 0 <= i < ms.len() ==> !is_bulk_named(#[trigger] ms[i], ident),
    ensures
        bulk_setter_count(ms, ident) == 0,
    decreases ms.len(),
{
    if ms.len() > 0 {
        assert(forall|i: int| 0 <= i < ms.len() - 1 ==> ms.drop_last()[i] == ms[i]);
        lemma_count_zero(ms.drop_last(), ident);
    }
}

/// The setter sections of fields that are not the multi-valued field named
/// `ident` contribute no bulk-replace setter bearing `ident`.
proof fn lemma_setter_sections_zero(fields: Seq<BuilderFieldView>, ident: Seq<char>)
    requires
        forall|i: int|
            0 <= i < fields.len() ==> ((#[trigger] fields[i]) is Multi ==> fields[i]->Multi_ident
                != ident),
    ensures
        bulk_setter_count(
            fields.map_values(|f: BuilderFieldView| setter_part(f)).flatten_alt(),
            ident,
        ) == 0,
    decreases fields.len(),
{
    let lists = fields.map_values(|f: BuilderFieldView| setter_part(f));
    if fields.len() == 0 {
        assert(lists =~= Seq::<Seq<MethodDescView>>::empty());
    } else {
        assert(forall|i: int| 0 <= i < fields.len() - 1 ==> fields.drop_last()[i] == fields[i]);
        lemma_setter_sections_zero(fields.drop_last(), ident);
        let prev_lists = fields.drop_last().map_values(|f: BuilderFieldView| setter_part(f));
        assert(lists.drop_last() =~= prev_lists);
        assert(lists.last() == setter_part(fields.last()));
        let section = setter_part(fields.last());
        assert(fields[fields.len() - 1] == fields.last());
        assert forall|i: int| 0 <= i < section.len() implies !is_bulk_named(
            #[trigger] section[i],
            ident,
        ) by {}
        lemma_count_zero(section, ident);
        lemma_count_add(prev_lists.flatten_alt(), section, ident);
    }
}

/// Accumulator sections hold accumulators only, never a bulk-replace
/// setter.
proof fn lemma_accum_sections_zero(fields: Seq<BuilderFieldView>, ident: Seq<char>)
    ensures
        bulk_setter_count(
            fields.map_values(|f: BuilderFieldView| accum_part(f)).flatten_alt(),
            ident,
        ) == 0,
    decreases fields.len(),
{
    let lists = fields.map_values(|f: BuilderFieldView| accum_part(f));
    if fields.len() == 0 {
        assert(lists =~= Seq::<Seq<MethodDescView>>::empty());
    } else {
        lemma_accum_sections_zero(fields.drop_last(), ident);
        let prev_lists = fields.drop_last().map_values(|f: BuilderFieldView| accum_part(f));
        assert(lists.drop_last() =~= prev_lists);
        assert(lists.last() == accum_part(fields.last()));
        let section = accum_part(fields.last());
        assert forall|i: int| 0 <= i < section.len() implies !is_bulk_named(
            #[trigger] section[i],
            ident,
        ) by {}
        lemma_count_zero(section, ident);
        lemma_count_add(prev_lists.flatten_alt(), section, ident);
    }
}

/// The setter sections of a whole field list hold exactly the one field's
/// bulk-replace setter, when it has one.
proof fn lemma_setter_sections_count(fields: Seq<BuilderFieldView>, k: int, ident: Seq<char>)
    requires
        0 <= k < fields.len(),
        fields[k] is Multi,
        fields[k]->Multi_ident == ident,
        forall|i: int|
            0 <= i < fields.len() && i != k ==> ((#[trigger] fields[i]) is Multi
                ==> fields[i]->Multi_ident != ident),
    ensures
        bulk_setter_count(
            fields.map_values(|f: BuilderFieldView| setter_part(f)).flatten_alt(),
            ident,
        ) == if fields[k]->Multi_with_set_all {
            1nat
        } else {
            0nat
        },
    decreases fields.len(),
{
    let lists = fields.map_values(|f: BuilderFieldView| setter_part(f));
    let prev_lists = fields.drop_last().map_values(|f: BuilderFieldView| setter_part(f));
    assert(lists.drop_last() =~= prev_lists);
    assert(lists.last() == setter_part(fields.last()));
    let section = setter_part(fields.last());
    lemma_count_add(prev_lists.flatten_alt(), section, ident);
    if k == fields.len() - 1 {
        assert(forall|i: int| 0 <= i < fields.len() - 1 ==> fields.drop_last()[i] == fields[i]);
        lemma_setter_sections_zero(fields.drop_last(), ident);
        if fields[k]->Multi_with_set_all {
            let m = MethodDescView::BulkSetter {
                name: fields[k]->Multi_ident,
                param_ty: fields[k]->Multi_ty,
            };
            assert(section =~= seq![m]);
            assert(section.drop_last() =~= Seq::<MethodDescView>::empty());
            assert(bulk_setter_count(Seq::<MethodDescView>::empty(), ident) == 0);
            assert(section.last() == m);
            assert(is_bulk_named(m, ident));
            assert(bulk_setter_count(section, ident) == 1);
        } else {
            assert(section =~= Seq::<MethodDescView>::empty());
        }
    } else {
        assert(forall|i: int| 0 <= i < fields.len() - 1 ==> fields.drop_last()[i] == fields[i]);
        lemma_setter_sections_count(fields.drop_last(), k, ident);
        assert(fields[fields.len() - 1] == fields.last());
        assert forall|i: int| 0 <= i < section.len() implies !is_bulk_named(
            #[trigger] section[i],
            ident,
        ) by {}
        lemma_count_zero(section, ident);
    }
}

/// The whole-method-set bulk-replace setter law: in everything emitted for
/// a record whose field names are distinct, the multi-valued field at
/// position `k` is served by exactly one bulk-replace setter bearing its
/// name when no alias equals that name, and by none at all when one does.
pub proof fn lemma_bulk_setter_count_in_method_set(fields: Seq<BuilderFieldView>, k: int)
    requires
        0 <= k < fields.len(),
        fields[k] is Multi,
        forall|i: int|
            0 <= i < fields.len() && i != k ==> ((#[trigger] fields[i]) is Multi
                ==> fields[i]->Multi_ident != fields[k]->Multi_ident),
    ensures
        bulk_setter_count(setters_methods_spec(fields), fields[k]->Multi_ident)
            == if fields[k]->Multi_with_set_all {
            1nat
        } else {
            0nat
        },
{
    let ident = fields[k]->Multi_ident;
    let setter_lists = fields.map_values(|f: BuilderFieldView| setter_part(f));
    let accum_lists = fields.map_values(|f: BuilderFieldView| accum_part(f));
    setter_lists.lemma_flatten_and_flatten_alt_are_equivalent();
    accum_lists.lemma_flatten_and_flatten_alt_are_equivalent();
    lemma_count_add(setter_lists.flatten(), accum_lists.flatten(), ident);
    lemma_setter_sections_count(fields, k, ident);
    lemma_accum_sections_zero(fields, ident);
}

/// The optional-field law: a field with no annotation entries and an
/// optional-wrapped type classifies Optional, and its finalize step is a
/// plain move-out — finalize can never fail on it, set or not.
pub proof fn lemma_optional_never_guarded(f: FieldView, inner: Seq<char>)
    requires
        unannotated(f),
        type_behind_spec(f.ty, optional_wrapper()) == Some(inner),
    ensures
        classify_spec(f) == Ok::<BuilderFieldView, Seq<DiagnosticView>>(
            BuilderFieldView::Optional { ident: f.name, ty: inner },
        ),
        step_of(classify_spec(f)->Ok_0) == (BuildStepView::TakeDefault { slot: f.name }),
{
    lemma_optional_field(f, inner);
}

} // verus!
