//! The builder declaration.
//!
//! The companion type is named after the record, carries the record's
//! own generic parameters, one numbered slot parameter per field, and
//! two marker parameters (asynchronous, deferred validator), and holds
//! one storage field per record field: an optional stored value
//! representation whose second type argument is the field's type at the
//! defaulted instantiation, so that a pre-filled default can be carried
//! until the real instantiation is known.

use vstd::prelude::*;

use crate::struct_impl::spec_defaulted_bindings;
use crate::struct_input::StructInput;
use crate::tokens::clone_tokens;
use crate::tokens::spec_substitute;
use crate::tokens::substitute_params;
use crate::tokens::Tok;
use crate::tokens::TokView;

verus! {

/// One storage field of the builder.
pub struct BuilderField {
    /// The field's name.
    pub ident: String,
    /// The field's declared type.
    pub ty: Vec<Tok>,
    /// The field's type at the defaulted instantiation: the type of the
    /// value a pre-filled default starts with.
    pub default_ty: Vec<Tok>,
}

/// The mathematical value of a [`BuilderField`].
pub struct BuilderFieldView {
    pub ident: Seq<char>,
    pub ty: Seq<TokView>,
    pub default_ty: Seq<TokView>,
}

impl View for BuilderField {
    type V = BuilderFieldView;

    open spec fn view(&self) -> BuilderFieldView {
        BuilderFieldView {
            ident: self.ident@,
            ty: self.ty.deep_view(),
            default_ty: self.default_ty.deep_view(),
        }
    }
}

impl DeepView for BuilderField {
    type V = BuilderFieldView;

    open spec fn deep_view(&self) -> BuilderFieldView {
        self.view()
    }
}

impl StructInput {
    /// The storage fields of the builder, one per record field in
    /// canonical order: each keeps its name and declared type, and its
    /// default-storage type is the declared type with every defaulted
    /// generic parameter replaced by its resolved default.
    pub fn builder_fields(&self) -> (r: Vec<BuilderField>)
        requires
            self.wf(),
        ensures
            r.deep_view().len() == crate::builder_impl::spec_all_fields(*self).len(),
            forall|i: int|
                0 <= i < r.deep_view().len() ==> {
                    let f = #[trigger] crate::builder_impl::spec_all_fields(*self)[i];
                    &&& r.deep_view()[i].ident == f.ident
                    &&& r.deep_view()[i].ty == f.ty
                    &&& r.deep_view()[i].default_ty == spec_substitute(
                        f.ty,
                        spec_defaulted_bindings(self.generics@.params),
                    )
                },
    {
        let ghost all = crate::builder_impl::spec_all_fields(*self);
        let bindings = self.defaulted_bindings();
        let nreq = self.required_fields.len();
        let nopt = self.optional_fields.len();
        let mut r: Vec<BuilderField> = Vec::new();
        let mut k: usize = 0;
        while k < nreq + nopt
            invariant
                k <= nreq + nopt,
                nreq + nopt <= usize::MAX,
                nreq == self.required_fields.deep_view().len(),
                nopt == self.optional_fields.deep_view().len(),
                all == crate::builder_impl::spec_all_fields(*self),
                all.len() == nreq + nopt,
                bindings.deep_view() == spec_defaulted_bindings(self.generics@.params),
                r@.len() == k,
                forall|i: int|
                    0 <= i < k ==> {
                        let f = #[trigger] all[i];
                        &&& r@[i]@.ident == f.ident
                        &&& r@[i]@.ty == f.ty
                        &&& r@[i]@.default_ty == spec_substitute(
                            f.ty,
                            spec_defaulted_bindings(self.generics@.params),
                        )
                    },
            decreases nreq + nopt - k,
        {
            let f = if k < nreq {
                proof {
                    assert(all[k as int] == self.required_fields.deep_view()[k as int]);
                    assert(self.required_fields.deep_view()[k as int]
                        == self.required_fields@[k as int]@);
                }
                &self.required_fields[k]
            } else {
                proof {
                    assert(all[k as int] == self.optional_fields.deep_view()[k - nreq]);
                    assert(self.optional_fields.deep_view()[k - nreq]
                        == self.optional_fields@[k - nreq]@);
                }
                &self.optional_fields[k - nreq]
            };
            assert(f@ == all[k as int]);
            let entry = BuilderField {
                ident: f.ident.clone(),
                ty: clone_tokens(&f.ty),
                default_ty: substitute_params(&f.ty, &bindings),
            };
            r.push(entry);
            k += 1;
        }
        r
    }
}

} // verus!
