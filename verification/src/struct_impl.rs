//! The record's `new` function.
//!
//! `new` creates the empty builder. It is attached to the record at the
//! *defaulted* instantiation of every generic parameter that carries a
//! default type, so that a builder can be created without naming any
//! type argument; an inferable parameter is re-instantiated later by the
//! setter that resolves it. `new` also fixes the builder's initial
//! contents: required slots start empty, an optional field with an
//! immediate default starts pre-filled with it, and a late-bound default
//! starts as a bare witness, its expression re-evaluated at
//! construction time.

use vstd::prelude::*;

use crate::struct_input::GenericParamDefView;
use crate::struct_input::StructInput;
use crate::schema::DefaultRule;
use crate::schema::DefaultRuleView;
use crate::schema::FieldView;
use crate::tokens::clone_tokens;
use crate::tokens::spec_substitute;
use crate::tokens::substitute_params;
use crate::tokens::Binding;
use crate::tokens::BindingView;
use crate::tokens::Tok;
use crate::tokens::TokView;

verus! {

/// The names of the record's type parameters that carry a default type,
/// in declaration order.
pub open spec fn spec_defaulted_generics(params: Seq<GenericParamDefView>) -> Seq<Seq<char>>
    decreases params.len(),
{
    if params.len() == 0 {
        Seq::empty()
    } else {
        let rest = spec_defaulted_generics(params.drop_last());
        match params.last() {
            GenericParamDefView::Type(tp) => if tp.default is Some {
                rest.push(tp.ident)
            } else {
                rest
            },
            _ => rest,
        }
    }
}

/// The defaulted instantiation: each defaulted parameter bound to its
/// default type, with the defaults of parameters declared earlier
/// already substituted inside it. A default may only mention parameters
/// declared before its own.
pub open spec fn spec_defaulted_bindings(params: Seq<GenericParamDefView>) -> Seq<BindingView>
    decreases params.len(),
{
    if params.len() == 0 {
        Seq::empty()
    } else {
        let rest = spec_defaulted_bindings(params.drop_last());
        match params.last() {
            GenericParamDefView::Type(tp) => match tp.default {
                Some(d) => rest.push(
                    BindingView { name: tp.ident, replacement: spec_substitute(d, rest) },
                ),
                None => rest,
            },
            _ => rest,
        }
    }
}

impl StructInput {
    /// The names of the type parameters that carry a default type.
    pub fn defaulted_generics(&self) -> (r: Vec<String>)
        ensures
            r.deep_view() == spec_defaulted_generics(self.generics@.params),
    {
        let ghost pv = self.generics@.params;
        let mut r: Vec<String> = Vec::new();
        let mut i: usize = 0;
        proof {
            assert(pv.take(0) =~= Seq::<GenericParamDefView>::empty());
            assert(r.deep_view() =~= Seq::<Seq<char>>::empty());
        }
        while i < self.generics.params.len()
            invariant
                i <= self.generics.params.len(),
                pv == self.generics@.params,
                pv.len() == self.generics.params@.len(),
                r.deep_view() == spec_defaulted_generics(pv.take(i as int)),
            decreases self.generics.params.len() - i,
        {
            assert(pv[i as int] == self.generics.params@[i as int]@);
            proof {
                assert(pv.take(i + 1).drop_last() =~= pv.take(i as int));
                assert(pv.take(i + 1).last() == pv[i as int]);
            }
            match &self.generics.params[i] {
                crate::struct_input::GenericParamDef::Type(tp) => {
                    if tp.default.is_some() {
                        r.push(tp.ident.clone());
                        assert(r.deep_view() =~= spec_defaulted_generics(pv.take(i as int)).push(
                            tp.ident@,
                        ));
                    }
                },
                _ => {},
            }
            i += 1;
        }
        proof {
            assert(pv.take(pv.len() as int) =~= pv);
        }
        r
    }

    /// The defaulted instantiation of the record's generic parameters:
    /// each defaulted parameter bound to its default type, resolved left
    /// to right so that a default may mention the parameters declared
    /// before it.
    pub fn defaulted_bindings(&self) -> (r: Vec<Binding>)
        ensures
            r.deep_view() == spec_defaulted_bindings(self.generics@.params),
    {
        let ghost pv = self.generics@.params;
        let mut r: Vec<Binding> = Vec::new();
        let mut i: usize = 0;
        proof {
            assert(pv.take(0) =~= Seq::<GenericParamDefView>::empty());
            assert(r.deep_view() =~= Seq::<BindingView>::empty());
        }
        while i < self.generics.params.len()
            invariant
                i <= self.generics.params.len(),
                pv == self.generics@.params,
                pv.len() == self.generics.params@.len(),
                r.deep_view() == spec_defaulted_bindings(pv.take(i as int)),
            decreases self.generics.params.len() - i,
        {
            assert(pv[i as int] == self.generics.params@[i as int]@);
            proof {
                assert(pv.take(i + 1).drop_last() =~= pv.take(i as int));
                assert(pv.take(i + 1).last() == pv[i as int]);
            }
            match &self.generics.params[i] {
                crate::struct_input::GenericParamDef::Type(tp) => {
                    match &tp.default {
                        Some(d) => {
                            let resolved = substitute_params(d, &r);
                            let b = Binding { name: tp.ident.clone(), replacement: resolved };
                            let ghost pre = r.deep_view();
                            r.push(b);
                            assert(r.deep_view() =~= pre.push(
                                BindingView {
                                    name: tp.ident@,
                                    replacement: spec_substitute(d.deep_view(), pre),
                                },
                            ));
                        },
                        None => {},
                    }
                },
                _ => {},
            }
            i += 1;
        }
        proof {
            assert(pv.take(pv.len() as int) =~= pv);
        }
        r
    }
}

/// The initial contents of one slot when the builder is created.
pub enum InitArg {
    /// The slot starts empty.
    Unset,
    /// The slot starts pre-filled with the field's immediate default.
    Default(Vec<Tok>),
    /// The slot starts as a bare type-equality witness; the default
    /// expression is re-evaluated at construction time, once the
    /// generic parameters are known.
    LateBound,
}

/// The mathematical value of an [`InitArg`].
pub enum InitArgView {
    Unset,
    Default(Seq<TokView>),
    LateBound,
}

impl View for InitArg {
    type V = InitArgView;

    open spec fn view(&self) -> InitArgView {
        match self {
            InitArg::Unset => InitArgView::Unset,
            InitArg::Default(e) => InitArgView::Default(e.deep_view()),
            InitArg::LateBound => InitArgView::LateBound,
        }
    }
}

impl DeepView for InitArg {
    type V = InitArgView;

    open spec fn deep_view(&self) -> InitArgView {
        self.view()
    }
}

/// The initial contents of one field's slot: empty for a required
/// field; the stored default for an optional field with an immediate,
/// early-bound default; a bare witness for a late-bound default; and
/// empty for a deferred default, which construction evaluates from the
/// default rule.
pub open spec fn spec_init_arg(f: FieldView) -> InitArgView {
    match f.attrs.default {
        None => InitArgView::Unset,
        Some(d) => if f.attrs.late_bound_default {
            InitArgView::LateBound
        } else {
            match d {
                DefaultRuleView::Immediate(e) => InitArgView::Default(e),
                DefaultRuleView::Lazy(_) => InitArgView::Unset,
            }
        },
    }
}

impl StructInput {
    /// The initial contents of the builder, slot by slot in canonical
    /// order.
    pub fn builder_init_args(&self) -> (r: Vec<InitArg>)
        requires
            self.wf(),
        ensures
            r.deep_view().len() == crate::builder_impl::spec_all_fields(*self).len(),
            forall|i: int|
                0 <= i < r.deep_view().len() ==> r.deep_view()[i] == spec_init_arg(
                    #[trigger] crate::builder_impl::spec_all_fields(*self)[i],
                ),
    {
        let ghost all = crate::builder_impl::spec_all_fields(*self);
        let nreq = self.required_fields.len();
        let nopt = self.optional_fields.len();
        let mut r: Vec<InitArg> = Vec::new();
        let mut k: usize = 0;
        while k < nreq + nopt
            invariant
                k <= nreq + nopt,
                nreq + nopt <= usize::MAX,
                nreq == self.required_fields.deep_view().len(),
                nopt == self.optional_fields.deep_view().len(),
                all == crate::builder_impl::spec_all_fields(*self),
                all.len() == nreq + nopt,
                r@.len() == k,
                forall|i: int| 0 <= i < k ==> r@[i]@ == spec_init_arg(#[trigger] all[i]),
            decreases nreq + nopt - k,
        {
            let f = if k < nreq {
                proof {
                    assert(all[k as int] == self.required_fields.deep_view()[k as int]);
                    assert(self.required_fields.deep_view()[k as int]
                        == self.required_fields@[k as int]@);
                }
                &self.required_fields[k]
            } else {
                proof {
                    assert(all[k as int] == self.optional_fields.deep_view()[k - nreq]);
                    assert(self.optional_fields.deep_view()[k - nreq]
                        == self.optional_fields@[k - nreq]@);
                }
                &self.optional_fields[k - nreq]
            };
            assert(f@ == all[k as int]);
            let arg = match &f.attrs.default {
                None => InitArg::Unset,
                Some(d) => if f.attrs.late_bound_default {
                    InitArg::LateBound
                } else {
                    match d {
                        DefaultRule::Immediate(e) => InitArg::Default(clone_tokens(e)),
                        DefaultRule::Lazy(_) => InitArg::Unset,
                    }
                },
            };
            assert(arg@ == spec_init_arg(all[k as int]));
            r.push(arg);
            k += 1;
        }
        assert(forall|i: int| 0 <= i < r@.len() ==> r.deep_view()[i] == r@[i]@);
        r
    }

    /// The type arguments at which `new` is attached to the record:
    /// every parameter as declared, with each defaulted parameter
    /// replaced by its resolved default type.
    pub fn new_fn_target_types(&self) -> (r: Vec<Tok>)
        ensures
            r.deep_view() == spec_substitute(
                crate::struct_input::spec_tokenize_types(
                    self.generics@.params,
                    Seq::empty(),
                    false,
                ),
                spec_defaulted_bindings(self.generics@.params),
            ),
    {
        let empty: Vec<String> = Vec::new();
        proof {
            assert(empty.deep_view() =~= Seq::<Seq<char>>::empty());
        }
        let rendered = self.tokenize_types(&empty, false);
        let bindings = self.defaulted_bindings();
        substitute_params(&rendered, &bindings)
    }
}

} // verus!
