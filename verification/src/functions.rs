//! The setter-variant generator.
//!
//! For every non-hidden field the builder gets one setter per permitted
//! evaluation mode: the immediate setter under the field's own name, the
//! deferred one under `<name>_lazy`, the asynchronous one under
//! `<name>_async`. A validator makes the immediate setter fallible and
//! is deferred to construction time for the other two modes, where the
//! setter instead marks the builder as carrying a deferred validator.
//! Every setter consumes the builder, stores the new representation in
//! its own slot, and carries every other slot over.

use vstd::prelude::*;

use crate::names::spec_async_setter_name;
use crate::names::spec_lazy_setter_name;
use crate::names::async_setter_name;
use crate::names::lazy_setter_name;
use crate::schema::FieldView;
use crate::schema::FieldVisibility;
use crate::struct_input::StructInput;
use crate::tokens::clone_tokens;
use crate::tokens::replace_params_underscore;
use crate::tokens::spec_replace_underscore;
use crate::tokens::Tok;
use crate::tokens::TokView;

verus! {

/// The evaluation mode of one setter method.
#[derive(Clone, Copy, PartialEq, Eq, Structural, Debug)]
pub enum SetterKind {
    Value,
    Lazy,
    Async,
}

/// The representation a setter method stores in its slot.
#[derive(Clone, Copy, PartialEq, Eq, Structural, Debug)]
pub enum StoredKind {
    Value,
    Lazy,
    LazyValidated,
    Async,
    AsyncValidated,
}

/// One setter method of the generated builder.
pub struct SetterMethod {
    /// The field the method sets.
    pub field_ident: String,
    /// The method's name.
    pub method_ident: String,
    /// The type-state slot the method rewrites.
    pub slot_index: usize,
    /// The method's evaluation mode.
    pub kind: SetterKind,
    /// Whether the emitted method is public.
    pub vis_public: bool,
    /// The method accepts anything convertible into the field's type.
    pub use_into: bool,
    /// The method returns a result: its validator runs immediately.
    pub fallible: bool,
    /// The representation stored in the slot.
    pub stores: StoredKind,
    /// The supplied value's type: the field's type, with the inferred
    /// parameters renamed for the immediate setter.
    pub arg_ty: Vec<Tok>,
    /// The fresh type parameters the method introduces for inference.
    pub fn_generics: Vec<String>,
    /// The method moves the builder to the asynchronous marker.
    pub sets_async_marker: bool,
    /// The method moves the builder to the deferred-validator marker.
    pub sets_lazy_validator_marker: bool,
}

/// The mathematical value of a [`SetterMethod`].
pub struct SetterMethodView {
    pub field_ident: Seq<char>,
    pub method_ident: Seq<char>,
    pub slot_index: int,
    pub kind: SetterKind,
    pub vis_public: bool,
    pub use_into: bool,
    pub fallible: bool,
    pub stores: StoredKind,
    pub arg_ty: Seq<TokView>,
    pub fn_generics: Seq<Seq<char>>,
    pub sets_async_marker: bool,
    pub sets_lazy_validator_marker: bool,
}

impl View for SetterMethod {
    type V = SetterMethodView;

    open spec fn view(&self) -> SetterMethodView {
        SetterMethodView {
            field_ident: self.field_ident@,
            method_ident: self.method_ident@,
            slot_index: self.slot_index as int,
            kind: self.kind,
            vis_public: self.vis_public,
            use_into: self.use_into,
            fallible: self.fallible,
            stores: self.stores,
            arg_ty: self.arg_ty.deep_view(),
            fn_generics: self.fn_generics.deep_view(),
            sets_async_marker: self.sets_async_marker,
            sets_lazy_validator_marker: self.sets_lazy_validator_marker,
        }
    }
}

impl DeepView for SetterMethod {
    type V = SetterMethodView;

    open spec fn deep_view(&self) -> SetterMethodView {
        self.view()
    }
}

/// The immediate setter of field `f` at slot `index`.
pub open spec fn spec_value_setter(f: FieldView, index: int) -> SetterMethodView {
    SetterMethodView {
        field_ident: f.ident,
        method_ident: f.ident,
        slot_index: index,
        kind: SetterKind::Value,
        vis_public: f.vis,
        use_into: f.attrs.use_into,
        fallible: f.attrs.validator is Some,
        stores: StoredKind::Value,
        arg_ty: spec_replace_underscore(f.ty, f.attrs.infer),
        fn_generics: f.attrs.infer.map_values(|p: Seq<char>| p + "_"@),
        sets_async_marker: false,
        sets_lazy_validator_marker: false,
    }
}

/// The deferred setter of field `f` at slot `index`.
pub open spec fn spec_lazy_setter(f: FieldView, index: int) -> SetterMethodView {
    SetterMethodView {
        field_ident: f.ident,
        method_ident: spec_lazy_setter_name(f.ident),
        slot_index: index,
        kind: SetterKind::Lazy,
        vis_public: f.vis,
        use_into: f.attrs.use_into,
        fallible: false,
        stores: if f.attrs.validator is Some {
            StoredKind::LazyValidated
        } else {
            StoredKind::Lazy
        },
        arg_ty: f.ty,
        fn_generics: Seq::empty(),
        sets_async_marker: false,
        sets_lazy_validator_marker: f.attrs.validator is Some,
    }
}

/// The asynchronous setter of field `f` at slot `index`.
pub open spec fn spec_async_setter(f: FieldView, index: int) -> SetterMethodView {
    SetterMethodView {
        field_ident: f.ident,
        method_ident: spec_async_setter_name(f.ident),
        slot_index: index,
        kind: SetterKind::Async,
        vis_public: f.vis,
        use_into: f.attrs.use_into,
        fallible: false,
        stores: if f.attrs.validator is Some {
            StoredKind::AsyncValidated
        } else {
            StoredKind::Async
        },
        arg_ty: f.ty,
        fn_generics: Seq::empty(),
        sets_async_marker: true,
        sets_lazy_validator_marker: f.attrs.validator is Some,
    }
}

/// The setter methods of field `f` at slot `index`: none for a hidden
/// field, and otherwise one per permitted evaluation mode, in the order
/// value, lazy, async.
pub open spec fn spec_field_setters(f: FieldView, index: int) -> Seq<SetterMethodView> {
    if f.attrs.vis == FieldVisibility::Hidden {
        Seq::empty()
    } else {
        (if f.attrs.setters.value {
            seq![spec_value_setter(f, index)]
        } else {
            Seq::empty()
        }) + (if f.attrs.setters.lazy {
            seq![spec_lazy_setter(f, index)]
        } else {
            Seq::empty()
        }) + (if f.attrs.setters.asynchronous {
            seq![spec_async_setter(f, index)]
        } else {
            Seq::empty()
        })
    }
}

/// The setter methods of the fields `fields`, the first of which sits at
/// slot `base`.
pub open spec fn spec_setters_from(fields: Seq<FieldView>, base: int) -> Seq<SetterMethodView>
    decreases fields.len(),
{
    if fields.len() == 0 {
        Seq::empty()
    } else {
        spec_field_setters(fields[0], base) + spec_setters_from(fields.skip(1), base + 1)
    }
}

/// Builds the setter methods of one field.
fn field_setters(f: &crate::schema::Field, index: usize) -> (r: Vec<SetterMethod>)
    ensures
        r.deep_view() == spec_field_setters(f@, index as int),
{
    let mut r: Vec<SetterMethod> = Vec::new();
    if matches!(f.attrs.vis, FieldVisibility::Hidden) {
        assert(r.deep_view() =~= spec_field_setters(f@, index as int));
        return r;
    }
    if f.attrs.setters.value {
        let arg_ty = replace_params_underscore(&f.ty, &f.attrs.infer);
        let mut fn_generics: Vec<String> = Vec::new();
        let mut k: usize = 0;
        proof {
            assert(fn_generics.deep_view() =~= Seq::<Seq<char>>::empty());
        }
        while k < f.attrs.infer.len()
            invariant
                k <= f.attrs.infer@.len(),
                fn_generics@.len() == k,
                forall|j: int|
                    0 <= j < k ==> fn_generics@[j]@ == f.attrs.infer.deep_view()[j] + "_"@,
            decreases f.attrs.infer@.len() - k,
        {
            assert(f.attrs.infer.deep_view()[k as int] == f.attrs.infer@[k as int]@);
            fn_generics.push(crate::tokens::ident_add_underscore(&f.attrs.infer[k]));
            k += 1;
        }
        let m = SetterMethod {
            field_ident: f.ident.clone(),
            method_ident: f.ident.clone(),
            slot_index: index,
            kind: SetterKind::Value,
            vis_public: f.vis,
            use_into: f.attrs.use_into,
            fallible: f.attrs.validator.is_some(),
            stores: StoredKind::Value,
            arg_ty,
            fn_generics,
            sets_async_marker: false,
            sets_lazy_validator_marker: false,
        };
        proof {
            assert(m@.fn_generics =~= f@.attrs.infer.map_values(|p: Seq<char>| p + "_"@));
            assert(m@ == spec_value_setter(f@, index as int));
        }
        r.push(m);
    }
    if f.attrs.setters.lazy {
        let m = SetterMethod {
            field_ident: f.ident.clone(),
            method_ident: lazy_setter_name(&f.ident),
            slot_index: index,
            kind: SetterKind::Lazy,
            vis_public: f.vis,
            use_into: f.attrs.use_into,
            fallible: false,
            stores: if f.attrs.validator.is_some() {
                StoredKind::LazyValidated
            } else {
                StoredKind::Lazy
            },
            arg_ty: clone_tokens(&f.ty),
            fn_generics: Vec::new(),
            sets_async_marker: false,
            sets_lazy_validator_marker: f.attrs.validator.is_some(),
        };
        proof {
            assert(m@.fn_generics =~= Seq::<Seq<char>>::empty());
            assert(m@ == spec_lazy_setter(f@, index as int));
        }
        r.push(m);
    }
    if f.attrs.setters.asynchronous {
        let m = SetterMethod {
            field_ident: f.ident.clone(),
            method_ident: async_setter_name(&f.ident),
            slot_index: index,
            kind: SetterKind::Async,
            vis_public: f.vis,
            use_into: f.attrs.use_into,
            fallible: false,
            stores: if f.attrs.validator.is_some() {
                StoredKind::AsyncValidated
            } else {
                StoredKind::Async
            },
            arg_ty: clone_tokens(&f.ty),
            fn_generics: Vec::new(),
            sets_async_marker: true,
            sets_lazy_validator_marker: f.attrs.validator.is_some(),
        };
        proof {
            assert(m@.fn_generics =~= Seq::<Seq<char>>::empty());
            assert(m@ == spec_async_setter(f@, index as int));
        }
        r.push(m);
    }
    proof {
        assert(r.deep_view() =~= spec_field_setters(f@, index as int));
    }
    r
}

impl StructInput {
    /// The setter methods of the whole record, field by field in
    /// canonical order: a hidden field gets none, every other field one
    /// method per permitted evaluation mode.
    pub fn setter_methods(&self) -> (r: Vec<SetterMethod>)
        requires
            self.wf(),
        ensures
            r.deep_view() == spec_setters_from(crate::builder_impl::spec_all_fields(*self), 0),
    {
        let ghost all = crate::builder_impl::spec_all_fields(*self);
        let nreq = self.required_fields.len();
        let nopt = self.optional_fields.len();
        let mut r: Vec<SetterMethod> = Vec::new();
        let mut k: usize = 0;
        proof {
            assert(all.skip(0) =~= all);
            assert(r.deep_view() =~= Seq::<SetterMethodView>::empty());
        }
        while k < nreq + nopt
            invariant
                k <= nreq + nopt,
                nreq + nopt <= usize::MAX,
                nreq == self.required_fields.deep_view().len(),
                nopt == self.optional_fields.deep_view().len(),
                all == crate::builder_impl::spec_all_fields(*self),
                all.len() == nreq + nopt,
                spec_setters_from(all, 0) == r.deep_view() + spec_setters_from(
                    all.skip(k as int),
                    k as int,
                ),
            decreases nreq + nopt - k,
        {
            let f = if k < nreq {
                proof {
                    assert(all[k as int] == self.required_fields.deep_view()[k as int]);
                    assert(self.required_fields.deep_view()[k as int]
                        == self.required_fields@[k as int]@);
                }
                &self.required_fields[k]
            } else {
                proof {
                    assert(all[k as int] == self.optional_fields.deep_view()[k - nreq]);
                    assert(self.optional_fields.deep_view()[k - nreq]
                        == self.optional_fields@[k - nreq]@);
                }
                &self.optional_fields[k - nreq]
            };
            assert(f@ == all[k as int]);
            assert(all.skip(k as int)[0] == all[k as int]);
            let methods = field_setters(f, k);
            let ghost pre = r.deep_view();
            extend_methods(&mut r, methods);
            proof {
                assert(all.skip(k as int).skip(1) =~= all.skip(k + 1));
                lemma_setters_from_step(all, k as int);
            }
            k += 1;
        }
        proof {
            assert(all.skip(all.len() as int) =~= Seq::<FieldView>::empty());
            assert(r.deep_view() =~= spec_setters_from(all, 0));
        }
        r
    }
}

proof fn lemma_setters_from_step(all: Seq<FieldView>, k: int)
    requires
        0 <= k < all.len(),
    ensures
        spec_setters_from(all.skip(k), k) == spec_field_setters(all[k], k) + spec_setters_from(
            all.skip(k + 1),
            k + 1,
        ),
{
    assert(all.skip(k).len() > 0);
    assert(all.skip(k)[0] == all[k]);
    assert(all.skip(k).skip(1) =~= all.skip(k + 1));
}

/// Appends `src` to `dst`, moving the methods over.
fn extend_methods(dst: &mut Vec<SetterMethod>, src: Vec<SetterMethod>)
    ensures
        final(dst).deep_view() == old(dst).deep_view() + src.deep_view(),
{
    let ghost sv = src.deep_view();
    let ghost base = old(dst).deep_view();
    let mut rest = src;
    while rest.len() > 0
        invariant
            rest@.len() <= sv.len(),
            forall|j: int|
                0 <= j < rest@.len() ==> rest@[j]@ == sv[sv.len() - rest@.len() + j],
            dst@.len() == base.len() + sv.len() - rest@.len(),
            forall|j: int| 0 <= j < base.len() ==> dst@[j]@ == base[j],
            forall|j: int|
                0 <= j < sv.len() - rest@.len() ==> dst@[base.len() + j]@ == sv[j],
        decreases rest@.len(),
    {
        let ghost pre = rest@;
        let m = rest.remove(0);
        proof {
            assert(m == pre[0]);
            assert(forall|j: int| 0 <= j < pre.len() - 1 ==> pre.remove(0)[j] == pre[j + 1]);
        }
        dst.push(m);
    }
    proof {
        assert(final(dst).deep_view() =~= base + sv);
    }
}

/// How a setter carries one of the other fields over into the new
/// builder value.
#[derive(Clone, Copy, PartialEq, Eq, Structural, Debug)]
pub enum Rebind {
    /// Move the stored representation as it is.
    Keep,
    /// Carry the stored default forward through its type-equality
    /// witness, so it can be re-typed once the inferred parameters are
    /// known.
    Retype,
}

/// The rebind of one field: a late-bound default, or a field that
/// mentions an inferable parameter without resolving it, must be carried
/// through its witness; every other field moves as it is.
pub open spec fn spec_rebind(f: FieldView) -> Rebind {
    if f.attrs.late_bound_default || f.attrs.use_inferred.len() > 0 {
        Rebind::Retype
    } else {
        Rebind::Keep
    }
}

impl StructInput {
    /// How each field, in canonical order, is carried over by any setter
    /// of the record.
    pub fn rebind_plan(&self) -> (r: Vec<Rebind>)
        requires
            self.wf(),
        ensures
            r@.len() == crate::builder_impl::spec_all_fields(*self).len(),
            forall|i: int|
                0 <= i < r@.len() ==> r@[i] == spec_rebind(
                    #[trigger] crate::builder_impl::spec_all_fields(*self)[i],
                ),
    {
        let ghost all = crate::builder_impl::spec_all_fields(*self);
        let nreq = self.required_fields.len();
        let nopt = self.optional_fields.len();
        let mut r: Vec<Rebind> = Vec::new();
        let mut k: usize = 0;
        while k < nreq + nopt
            invariant
                k <= nreq + nopt,
                nreq + nopt <= usize::MAX,
                nreq == self.required_fields.deep_view().len(),
                nopt == self.optional_fields.deep_view().len(),
                all == crate::builder_impl::spec_all_fields(*self),
                all.len() == nreq + nopt,
                r@.len() == k,
                forall|i: int| 0 <= i < k ==> r@[i] == spec_rebind(#[trigger] all[i]),
            decreases nreq + nopt - k,
        {
            let f = if k < nreq {
                proof {
                    assert(all[k as int] == self.required_fields.deep_view()[k as int]);
                    assert(self.required_fields.deep_view()[k as int]
                        == self.required_fields@[k as int]@);
                }
                &self.required_fields[k]
            } else {
                proof {
                    assert(all[k as int] == self.optional_fields.deep_view()[k - nreq]);
                    assert(self.optional_fields.deep_view()[k - nreq]
                        == self.optional_fields@[k - nreq]@);
                }
                &self.optional_fields[k - nreq]
            };
            assert(f@ == all[k as int]);
            if f.attrs.late_bound_default || f.attrs.use_inferred.len() > 0 {
                r.push(Rebind::Retype);
            } else {
                r.push(Rebind::Keep);
            }
            k += 1;
        }
        r
    }
}

} // verus!
