//! Generation core for record builders.
//!
//! Given the description of a record type (an ordered list of named fields,
//! each with a structural type descriptor and raw per-field annotations),
//! this library classifies every field into one of three construction
//! policies (mandatory, optional, multi-valued), collects every annotation
//! diagnostic across the whole record in one pass, and emits abstract
//! descriptors for the companion builder type: its storage layout, its
//! zero-value constructor, its setter and accumulator methods, and its
//! guarded finalize method.

pub mod helpers;
pub mod input;
pub mod field;
pub mod output;
pub mod command;

use vstd::prelude::*;

use crate::helpers::result_dv;
use crate::input::{parse_input, parse_input_spec, Diagnostic, DiagnosticView, Record, RecordView};
use crate::output::{
    build_method_spec, builder_type_spec, constructor_spec, output_build_method,
    output_builder_constructor, output_builder_type, output_setters, setters_spec, BuildMethod,
    BuildMethodView, BuilderType, BuilderTypeView, Constructor, ConstructorView, Setters,
    SettersView,
};

verus! {

/// The four generated artifacts for one record, as abstract descriptors.
#[derive(Debug, PartialEq)]
pub struct GeneratedSet {
    /// The builder type's storage layout.
    pub ty: BuilderType,
    /// The builder's zero-value constructor.
    pub constructor: Constructor,
    /// The builder's setter and accumulator methods.
    pub setters: Setters,
    /// The builder's guarded finalize method.
    pub build: BuildMethod,
}

/// Mathematical image of [`GeneratedSet`].
pub struct GeneratedSetView {
    pub ty: BuilderTypeView,
    pub constructor: ConstructorView,
    pub setters: SettersView,
    pub build: BuildMethodView,
}

impl DeepView for GeneratedSet {
    type V = GeneratedSetView;

    open spec fn deep_view(&self) -> GeneratedSetView {
        GeneratedSetView {
            ty: self.ty.deep_view(),
            constructor: self.constructor.deep_view(),
            setters: self.setters.deep_view(),
            build: self.build.deep_view(),
        }
    }
}

/// What the whole pipeline yields for one record: the four artifact
/// descriptors when every field classifies, otherwise the full ordered
/// diagnostic list.
pub open spec fn builder_spec(r: RecordView) -> Result<GeneratedSetView, Seq<DiagnosticView>> {
    match parse_input_spec(r) {
        Ok(input) => Ok(
            GeneratedSetView {
                ty: builder_type_spec(input),
                constructor: constructor_spec(input),
                setters: setters_spec(input),
                build: build_method_spec(input),
            },
        ),
        Err(diags) => Err(diags),
    }
}

/// Runs the whole pipeline on one record: classifies every field, and
/// either emits the four artifact descriptors or reports every diagnostic
/// across the record.
pub fn builder(record: &Record) -> (r: Result<GeneratedSet, Vec<Diagnostic>>)
    ensures
        result_dv(r) == builder_spec(record.deep_view()),
{
    let input = match parse_input(record) {
        Ok(input) => input,
        Err(diags) => {
            return Err(diags);
        },
    };
    let ty = output_builder_type(&input);
    let constructor = output_builder_constructor(&input);
    let setters = output_setters(&input);
    let build = output_build_method(&input);
    Ok(GeneratedSet { ty, constructor, setters, build })
}

} // verus!
