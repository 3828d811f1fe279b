//! The generic inference resolver.
//!
//! A record-level generic parameter with a default type may be marked on
//! a field as inferable: the setter of that field re-instantiates the
//! parameter at the type of whatever argument it is given, and calling
//! such a setter again may change the type once more. The parameter's
//! final instantiation is therefore decided by the last setter call on a
//! field that infers it; when no such call is made, the parameter stays
//! at its declared default.

use vstd::prelude::*;

use crate::schema::FieldView;
use crate::tokens::clone_tokens;
use crate::tokens::Tok;
use crate::tokens::TokView;

verus! {

/// One setter call that may take part in inference: the slot of the
/// field that was set, and the concrete type of the supplied argument.
pub struct InferCall {
    pub field_index: usize,
    pub arg_ty: Vec<Tok>,
}

/// The mathematical value of an [`InferCall`].
pub struct InferCallView {
    pub field_index: int,
    pub arg_ty: Seq<TokView>,
}

impl View for InferCall {
    type V = InferCallView;

    open spec fn view(&self) -> InferCallView {
        InferCallView { field_index: self.field_index as int, arg_ty: self.arg_ty.deep_view() }
    }
}

impl DeepView for InferCall {
    type V = InferCallView;

    open spec fn deep_view(&self) -> InferCallView {
        self.view()
    }
}

/// Whether field `f` infers the generic parameter `p`.
pub open spec fn spec_field_infers(f: FieldView, p: Seq<char>) -> bool {
    f.attrs.infer.contains(p)
}

/// The instantiation of parameter `p` after `calls`: the argument type
/// of the last call on a field that infers `p`, or `p_default` when
/// there is none.
pub open spec fn spec_resolve_param(
    fields: Seq<FieldView>,
    p_default: Seq<TokView>,
    p: Seq<char>,
    calls: Seq<InferCallView>,
) -> Seq<TokView>
    decreases calls.len(),
{
    if calls.len() == 0 {
        p_default
    } else {
        let last = calls.last();
        if 0 <= last.field_index < fields.len() && spec_field_infers(fields[last.field_index], p) {
            last.arg_ty
        } else {
            spec_resolve_param(fields, p_default, p, calls.drop_last())
        }
    }
}

/// Whether some call targets a field that infers `p`.
pub open spec fn spec_some_infer_call(
    fields: Seq<FieldView>,
    p: Seq<char>,
    calls: Seq<InferCallView>,
) -> bool {
    exists|k: int|
        0 <= k < calls.len() && 0 <= (#[trigger] calls[k]).field_index < fields.len()
            && spec_field_infers(fields[calls[k].field_index], p)
}

/// When no setter of a field inferring `p` is called, `p` resolves to
/// its declared default, whatever other setters are called and in
/// whatever order.
pub proof fn lemma_infer_defaults(
    fields: Seq<FieldView>,
    p_default: Seq<TokView>,
    p: Seq<char>,
    calls: Seq<InferCallView>,
)
    requires
        !spec_some_infer_call(fields, p, calls),
    ensures
        spec_resolve_param(fields, p_default, p, calls) == p_default,
    decreases calls.len(),
{
    if calls.len() > 0 {
        let last = calls.last();
        assert(!(0 <= last.field_index < fields.len() && spec_field_infers(
            fields[last.field_index],
            p,
        ))) by {
            if 0 <= last.field_index < fields.len() && spec_field_infers(
                fields[last.field_index],
                p,
            ) {
                assert(calls[calls.len() - 1] == last);
                assert(spec_some_infer_call(fields, p, calls));
            }
        }
        assert forall|k: int|
            0 <= k < calls.drop_last().len() implies !(0 <= (#[trigger] calls.drop_last(
        )[k]).field_index < fields.len() && spec_field_infers(
            fields[calls.drop_last()[k].field_index],
            p,
        )) by {
            assert(calls.drop_last()[k] == calls[k]);
            if 0 <= calls[k].field_index < fields.len() && spec_field_infers(
                fields[calls[k].field_index],
                p,
            ) {
                assert(spec_some_infer_call(fields, p, calls));
            }
        }
        lemma_infer_defaults(fields, p_default, p, calls.drop_last());
    }
}

/// The call that decides `p` is the last one on a field inferring `p`:
/// calls on other fields, before, between or after it, do not change the
/// resolution.
pub proof fn lemma_infer_last_call_decides(
    fields: Seq<FieldView>,
    p_default: Seq<TokView>,
    p: Seq<char>,
    calls: Seq<InferCallView>,
    k: int,
)
    requires
        0 <= k < calls.len(),
        0 <= calls[k].field_index < fields.len(),
        spec_field_infers(fields[calls[k].field_index], p),
        forall|m: int|
            k < m < calls.len() ==> !(0 <= (#[trigger] calls[m]).field_index < fields.len()
                && spec_field_infers(fields[calls[m].field_index], p)),
    ensures
        spec_resolve_param(fields, p_default, p, calls) == calls[k].arg_ty,
    decreases calls.len(),
{
    let last = calls.last();
    if k == calls.len() - 1 {
    } else {
        assert(!(0 <= last.field_index < fields.len() && spec_field_infers(
            fields[last.field_index],
            p,
        )));
        assert(calls.drop_last()[k] == calls[k]);
        assert(forall|m: int|
            k < m < calls.drop_last().len() ==> calls.drop_last()[m] == calls[m]);
        lemma_infer_last_call_decides(fields, p_default, p, calls.drop_last(), k);
    }
}

/// Resolves parameter `p`: walks the calls from the most recent one and
/// takes the argument type of the first call found on a field that
/// infers `p`; without one, the declared default stands.
pub fn resolve_param(
    fields: &Vec<crate::schema::Field>,
    p_default: &Vec<Tok>,
    p: &String,
    calls: &Vec<InferCall>,
) -> (r: Vec<Tok>)
    ensures
        r.deep_view() == spec_resolve_param(
            fields.deep_view(),
            p_default.deep_view(),
            p@,
            calls.deep_view(),
        ),
{
    let ghost fv = fields.deep_view();
    let ghost cv = calls.deep_view();
    let mut i: usize = calls.len();
    proof {
        assert(cv.take(cv.len() as int) =~= cv);
    }
    while i > 0
        invariant
            i <= calls@.len(),
            fv == fields.deep_view(),
            cv == calls.deep_view(),
            cv.len() == calls@.len(),
            fv.len() == fields@.len(),
            spec_resolve_param(fv, p_default.deep_view(), p@, cv) == spec_resolve_param(
                fv,
                p_default.deep_view(),
                p@,
                cv.take(i as int),
            ),
        decreases i,
    {
        assert(cv[i - 1] == calls@[i - 1]@);
        let call = &calls[i - 1];
        let mut infers = false;
        if call.field_index < fields.len() {
            assert(fv[call.field_index as int] == fields@[call.field_index as int]@);
            let f = &fields[call.field_index];
            infers = crate::tokens::contains_string(&f.attrs.infer, p);
        }
        proof {
            assert(cv.take(i as int).last() == cv[i - 1]);
            assert(cv.take(i as int).drop_last() =~= cv.take(i - 1));
        }
        if infers {
            return clone_tokens(&call.arg_ty);
        }
        i -= 1;
    }
    proof {
        assert(cv.take(0) =~= Seq::<InferCallView>::empty());
    }
    clone_tokens(p_default)
}

} // verus!
