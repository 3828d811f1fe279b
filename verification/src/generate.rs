//! The generated builder, as one value.
//!
//! Ties the components together: for one record, the builder's name and
//! storage fields, the defaulted instantiation and initial contents that
//! `new` uses, the setter methods with their state transitions, the way
//! setters carry the other fields over, and the construction entry
//! points.

use vstd::prelude::*;

use crate::builder_impl::spec_all_fields;
use crate::builder_impl::BuildPlan;
use crate::decl::BuilderField;
use crate::functions::Rebind;
use crate::functions::SetterMethod;
use crate::struct_impl::InitArg;
use crate::struct_input::StructInput;
use crate::tokens::Tok;

verus! {

/// Everything the generator emits for one record.
pub struct GeneratedBuilder {
    /// The companion type's name.
    pub builder_ident: String,
    /// The type arguments at which `new` is attached to the record.
    pub new_target_types: Vec<Tok>,
    /// The builder's initial contents, slot by slot.
    pub init_args: Vec<InitArg>,
    /// The documentation of `new`.
    pub new_docs: Vec<String>,
    /// The builder's storage fields.
    pub builder_fields: Vec<BuilderField>,
    /// The setter methods, field by field.
    pub setters: Vec<SetterMethod>,
    /// How setters carry the other fields over.
    pub rebinds: Vec<Rebind>,
    /// The construction entry points.
    pub build: BuildPlan,
}

/// Runs every component of the generator on one record.
pub fn generate(input: &StructInput) -> (r: GeneratedBuilder)
    requires
        input.wf(),
    ensures
        r.builder_ident@ == crate::names::spec_builder_name(input.ident@),
        r.new_target_types.deep_view() == crate::tokens::spec_substitute(
            crate::struct_input::spec_tokenize_types(input.generics@.params, Seq::empty(), false),
            crate::struct_impl::spec_defaulted_bindings(input.generics@.params),
        ),
        r.init_args.deep_view().len() == spec_all_fields(*input).len(),
        forall|i: int|
            0 <= i < r.init_args.deep_view().len() ==> r.init_args.deep_view()[i]
                == crate::struct_impl::spec_init_arg(#[trigger] spec_all_fields(*input)[i]),
        r.new_docs.deep_view() == crate::documents::spec_new_documents(*input),
        r.builder_fields.deep_view().len() == spec_all_fields(*input).len(),
        forall|i: int|
            0 <= i < r.builder_fields.deep_view().len() ==> {
                let f = #[trigger] spec_all_fields(*input)[i];
                &&& r.builder_fields.deep_view()[i].ident == f.ident
                &&& r.builder_fields.deep_view()[i].ty == f.ty
                &&& r.builder_fields.deep_view()[i].default_ty == crate::tokens::spec_substitute(
                    f.ty,
                    crate::struct_impl::spec_defaulted_bindings(input.generics@.params),
                )
            },
        r.setters.deep_view() == crate::functions::spec_setters_from(spec_all_fields(*input), 0),
        r.rebinds@.len() == spec_all_fields(*input).len(),
        forall|i: int|
            0 <= i < r.rebinds@.len() ==> r.rebinds@[i] == crate::functions::spec_rebind(
                #[trigger] spec_all_fields(*input)[i],
            ),
        r.build.emit_sync == (forall|i: int|
            0 <= i < input.required_fields.deep_view().len()
                ==> crate::builder_impl::spec_field_sync(
                #[trigger] input.required_fields.deep_view()[i],
            )),
        r.build.emit_async == (exists|i: int|
            0 <= i < spec_all_fields(*input).len() && crate::builder_impl::spec_field_async(
                #[trigger] spec_all_fields(*input)[i],
            )),
        r.build.fallible == (exists|i: int|
            0 <= i < spec_all_fields(*input).len()
                && crate::builder_impl::spec_field_makes_fallible(
                #[trigger] spec_all_fields(*input)[i],
            )),
        r.build.resolutions.deep_view().len() == spec_all_fields(*input).len(),
        forall|i: int|
            0 <= i < spec_all_fields(*input).len() ==> r.build.resolutions.deep_view()[i]
                == crate::builder_impl::spec_field_resolution(
                #[trigger] spec_all_fields(*input)[i],
            ),
{
    GeneratedBuilder {
        builder_ident: input.builder_name(),
        new_target_types: input.new_fn_target_types(),
        init_args: input.builder_init_args(),
        new_docs: input.new_documents(),
        builder_fields: input.builder_fields(),
        setters: input.setter_methods(),
        rebinds: input.rebind_plan(),
        build: input.build_plan(),
    }
}

} // verus!
