//! The construction emitter.
//!
//! From the record model this component decides which construction entry
//! points the builder gets: a synchronous `build` whenever every required
//! field has a synchronous setter, an asynchronous `build` whenever any
//! field has an asynchronous setter, and, when any field carries a
//! validator whose check is deferred past setter time, a fallible variant
//! that returns a result instead of the bare record. It also fixes, for
//! each field, how construction resolves the stored representation.

use vstd::prelude::*;

use crate::schema::DefaultRule;
use crate::schema::DefaultRuleView;
use crate::schema::FieldView;
use crate::struct_input::StructInput;
use crate::tokens::clone_tokens;
use crate::tokens::Tok;
use crate::tokens::TokView;

verus! {

/// Whether the field has a synchronous setter: an immediate value or a
/// deferred producer can be supplied without an asynchronous entry
/// point.
pub open spec fn spec_field_sync(f: FieldView) -> bool {
    f.attrs.setters.value || f.attrs.setters.lazy
}

/// Whether the field has an asynchronous setter.
pub open spec fn spec_field_async(f: FieldView) -> bool {
    f.attrs.setters.asynchronous
}

/// Whether the field's stored representation may carry a deferred
/// validator verdict, so that construction must be prepared to fail on
/// it.
pub open spec fn spec_field_deferred_validated(f: FieldView) -> bool {
    f.attrs.validator is Some && (f.attrs.setters.lazy || f.attrs.setters.asynchronous)
}

/// Whether the field makes the builder carry the deferred-validator
/// marker: it has a validator, and a deferred or asynchronous mode among
/// its setters or its default rule.
pub open spec fn spec_field_makes_fallible(f: FieldView) -> bool {
    f.attrs.validator is Some && (f.attrs.setters.lazy || f.attrs.setters.asynchronous
        || f.attrs.default matches Some(DefaultRuleView::Lazy(_)))
}

/// How construction obtains a missing field's value from its default
/// rule.
pub enum DefaultResolution {
    /// Use the default expression's value directly.
    Immediate(Vec<Tok>),
    /// Invoke the default expression as a zero-argument producer.
    Invoke(Vec<Tok>),
}

/// The mathematical value of a [`DefaultResolution`].
pub enum DefaultResolutionView {
    Immediate(Seq<TokView>),
    Invoke(Seq<TokView>),
}

impl View for DefaultResolution {
    type V = DefaultResolutionView;

    open spec fn view(&self) -> DefaultResolutionView {
        match self {
            DefaultResolution::Immediate(e) => DefaultResolutionView::Immediate(e.deep_view()),
            DefaultResolution::Invoke(e) => DefaultResolutionView::Invoke(e.deep_view()),
        }
    }
}

impl DeepView for DefaultResolution {
    type V = DefaultResolutionView;

    open spec fn deep_view(&self) -> DefaultResolutionView {
        self.view()
    }
}

/// How construction resolves one field's stored representation.
pub struct FieldResolution {
    /// The field's name.
    pub ident: String,
    /// How the default case is resolved; a required field has none.
    pub default: Option<DefaultResolution>,
    /// The default is only resolvable at construction time, once the
    /// generic parameters are known.
    pub late_bound: bool,
    /// The representation may hold a deferred validator verdict.
    pub deferred_validated: bool,
    /// The representation may hold an asynchronous producer.
    pub is_async: bool,
}

/// The mathematical value of a [`FieldResolution`].
pub struct FieldResolutionView {
    pub ident: Seq<char>,
    pub default: Option<DefaultResolutionView>,
    pub late_bound: bool,
    pub deferred_validated: bool,
    pub is_async: bool,
}

impl View for FieldResolution {
    type V = FieldResolutionView;

    open spec fn view(&self) -> FieldResolutionView {
        FieldResolutionView {
            ident: self.ident@,
            default: match self.default {
                Some(ref d) => Some(d@),
                None => None,
            },
            late_bound: self.late_bound,
            deferred_validated: self.deferred_validated,
            is_async: self.is_async,
        }
    }
}

impl DeepView for FieldResolution {
    type V = FieldResolutionView;

    open spec fn deep_view(&self) -> FieldResolutionView {
        self.view()
    }
}

/// The resolution of one field, as a function of its declaration.
pub open spec fn spec_field_resolution(f: FieldView) -> FieldResolutionView {
    FieldResolutionView {
        ident: f.ident,
        default: match f.attrs.default {
            Some(DefaultRuleView::Immediate(e)) => Some(DefaultResolutionView::Immediate(e)),
            Some(DefaultRuleView::Lazy(e)) => Some(DefaultResolutionView::Invoke(e)),
            None => None,
        },
        late_bound: f.attrs.late_bound_default,
        deferred_validated: spec_field_deferred_validated(f),
        is_async: spec_field_async(f),
    }
}

/// The record's fields in canonical order: the required partition, then
/// the optional one.
pub open spec fn spec_all_fields(input: StructInput) -> Seq<FieldView> {
    input.required_fields.deep_view() + input.optional_fields.deep_view()
}

/// The construction entry points of a builder.
pub struct BuildPlan {
    /// A synchronous `build` is emitted: every required field has a
    /// synchronous setter.
    pub emit_sync: bool,
    /// An asynchronous `build` is emitted: some field has an
    /// asynchronous setter.
    pub emit_async: bool,
    /// The fallible variant is emitted: some field carries a validator
    /// deferred past setter time.
    pub fallible: bool,
    /// Per field, in canonical order, how construction resolves it.
    pub resolutions: Vec<FieldResolution>,
}

impl StructInput {
    /// Decides the construction entry points and the per-field
    /// resolution of the builder.
    pub fn build_plan(&self) -> (r: BuildPlan)
        requires
            self.wf(),
        ensures
            r.emit_sync == (forall|i: int|
                0 <= i < self.required_fields.deep_view().len() ==> spec_field_sync(
                    #[trigger] self.required_fields.deep_view()[i],
                )),
            r.emit_async == (exists|i: int|
                0 <= i < spec_all_fields(*self).len() && spec_field_async(
                    #[trigger] spec_all_fields(*self)[i],
                )),
            r.fallible == (exists|i: int|
                0 <= i < spec_all_fields(*self).len() && spec_field_makes_fallible(
                    #[trigger] spec_all_fields(*self)[i],
                )),
            r.resolutions.deep_view().len() == spec_all_fields(*self).len(),
            forall|i: int|
                0 <= i < spec_all_fields(*self).len() ==> r.resolutions.deep_view()[i]
                    == spec_field_resolution(#[trigger] spec_all_fields(*self)[i]),
    {
        let ghost all = spec_all_fields(*self);
        let ghost reqv = self.required_fields.deep_view();
        let nreq = self.required_fields.len();
        let nopt = self.optional_fields.len();

        let mut emit_sync = true;
        let mut i: usize = 0;
        while i < nreq
            invariant
                i <= nreq,
                nreq == reqv.len(),
                reqv == self.required_fields.deep_view(),
                emit_sync == (forall|j: int|
                    0 <= j < i ==> spec_field_sync(#[trigger] reqv[j])),
            decreases nreq - i,
        {
            assert(reqv[i as int] == self.required_fields@[i as int]@);
            let f = &self.required_fields[i];
            let this_sync = f.attrs.setters.value || f.attrs.setters.lazy;
            proof {
                if !(emit_sync && this_sync) {
                    if !this_sync {
                        assert(!spec_field_sync(reqv[i as int]));
                    } else {
                        let w = choose|w: int| 0 <= w < i && !spec_field_sync(#[trigger] reqv[w]);
                        assert(!spec_field_sync(reqv[w]));
                    }
                }
            }
            emit_sync = emit_sync && this_sync;
            i += 1;
        }

        let mut emit_async = false;
        let mut fallible = false;
        let mut resolutions: Vec<FieldResolution> = Vec::new();
        let mut k: usize = 0;
        proof {
            assert(all.len() == reqv.len() + self.optional_fields.deep_view().len());
        }
        while k < nreq + nopt
            invariant
                k <= nreq + nopt,
                nreq + nopt <= usize::MAX,
                nreq == self.required_fields.deep_view().len(),
                nopt == self.optional_fields.deep_view().len(),
                all == spec_all_fields(*self),
                all.len() == nreq + nopt,
                emit_async == (exists|j: int|
                    0 <= j < k && spec_field_async(#[trigger] all[j])),
                fallible == (exists|j: int|
                    0 <= j < k && spec_field_makes_fallible(#[trigger] all[j])),
                resolutions@.len() == k,
                forall|j: int|
                    0 <= j < k ==> resolutions@[j]@ == spec_field_resolution(#[trigger] all[j]),
            decreases nreq + nopt - k,
        {
            let f = if k < nreq {
                proof {
                    assert(all[k as int] == self.required_fields.deep_view()[k as int]);
                    assert(self.required_fields.deep_view()[k as int]
                        == self.required_fields@[k as int]@);
                }
                &self.required_fields[k]
            } else {
                proof {
                    assert(all[k as int] == self.optional_fields.deep_view()[k - nreq]);
                    assert(self.optional_fields.deep_view()[k - nreq]
                        == self.optional_fields@[k - nreq]@);
                }
                &self.optional_fields[k - nreq]
            };
            assert(f@ == all[k as int]);
            let this_async = f.attrs.setters.asynchronous;
            let default_lazy = matches!(f.attrs.default, Some(DefaultRule::Lazy(_)));
            let this_fallible = f.attrs.validator.is_some() && (f.attrs.setters.lazy
                || f.attrs.setters.asynchronous || default_lazy);
            let this_deferred = f.attrs.validator.is_some() && (f.attrs.setters.lazy
                || f.attrs.setters.asynchronous);
            let default = match &f.attrs.default {
                Some(DefaultRule::Immediate(e)) => Some(
                    DefaultResolution::Immediate(clone_tokens(e)),
                ),
                Some(DefaultRule::Lazy(e)) => Some(DefaultResolution::Invoke(clone_tokens(e))),
                None => None,
            };
            let res = FieldResolution {
                ident: f.ident.clone(),
                default,
                late_bound: f.attrs.late_bound_default,
                deferred_validated: this_deferred,
                is_async: this_async,
            };
            assert(res@ == spec_field_resolution(all[k as int]));
            proof {
                if emit_async || this_async {
                    if this_async {
                        assert(spec_field_async(all[k as int]));
                    } else {
                        let w = choose|w: int| 0 <= w < k && spec_field_async(#[trigger] all[w]);
                        assert(spec_field_async(all[w]));
                    }
                }
                if fallible || this_fallible {
                    if this_fallible {
                        assert(spec_field_makes_fallible(all[k as int]));
                    } else {
                        let w = choose|w: int|
                            0 <= w < k && spec_field_makes_fallible(#[trigger] all[w]);
                        assert(spec_field_makes_fallible(all[w]));
                    }
                }
            }
            emit_async = emit_async || this_async;
            fallible = fallible || this_fallible;
            resolutions.push(res);
            k += 1;
        }
        assert(forall|j: int|
            0 <= j < resolutions@.len() ==> resolutions.deep_view()[j] == resolutions@[j]@);
        BuildPlan { emit_sync, emit_async, fallible, resolutions }
    }
}

} // verus!
