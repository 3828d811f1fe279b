//! The type-state encoding.
//!
//! The builder carries one generic slot per field, in canonical order:
//! required fields first, optional fields after them. A slot is either
//! the unset marker `()`, a named slot parameter left free, or the
//! field's concrete type. The builder's construction entry point is only
//! well-typed when every required slot holds its field's type; a setter
//! rewrites exactly its own slot from unset to the field's type.

use vstd::prelude::*;

use crate::names::spec_slot_param_name;
use crate::names::slot_param_name;
use crate::struct_input::StructInput;
use crate::tokens::clone_tokens;
use crate::tokens::Tok;
use crate::tokens::TokView;

verus! {

/// The instantiation of one type-state slot.
pub enum SlotTy {
    /// The unset marker `()`.
    Unset,
    /// A named slot parameter, left free.
    Var(String),
    /// A concrete type.
    Concrete(Vec<Tok>),
}

/// The mathematical value of a [`SlotTy`].
pub enum SlotTyView {
    Unset,
    Var(Seq<char>),
    Concrete(Seq<TokView>),
}

impl View for SlotTy {
    type V = SlotTyView;

    open spec fn view(&self) -> SlotTyView {
        match self {
            SlotTy::Unset => SlotTyView::Unset,
            SlotTy::Var(s) => SlotTyView::Var(s@),
            SlotTy::Concrete(t) => SlotTyView::Concrete(t.deep_view()),
        }
    }
}

impl DeepView for SlotTy {
    type V = SlotTyView;

    open spec fn deep_view(&self) -> SlotTyView {
        self.view()
    }
}

impl StructInput {
    /// The initial instantiation of the builder: every slot is the unset
    /// marker.
    pub fn empty_generics(&self) -> (r: Vec<SlotTy>)
        requires
            self.wf(),
        ensures
            r.deep_view().len() == self.required_fields@.len() + self.optional_fields@.len(),
            forall|j: int| 0 <= j < r.deep_view().len() ==> r.deep_view()[j] == SlotTyView::Unset,
    {
        let n = self.num_fields();
        let mut r: Vec<SlotTy> = Vec::new();
        let mut i: usize = 0;
        while i < n
            invariant
                i <= n,
                r@.len() == i,
                forall|j: int| 0 <= j < i ==> r@[j]@ == SlotTyView::Unset,
            decreases n - i,
        {
            r.push(SlotTy::Unset);
            i += 1;
        }
        assert(forall|j: int| 0 <= j < r@.len() ==> r.deep_view()[j] == r@[j]@);
        r
    }

    /// The slot parameters of the optional fields, left free: the
    /// construction entry point accepts any state of an optional slot.
    pub fn optional_generics(&self) -> (r: Vec<SlotTy>)
        requires
            self.wf(),
        ensures
            r.deep_view().len() == self.optional_fields@.len(),
            forall|j: int|
                0 <= j < r.deep_view().len() ==> r.deep_view()[j] == SlotTyView::Var(
                    spec_slot_param_name((self.required_fields@.len() + j + 1) as nat),
                ),
    {
        let offset = self.required_fields.len();
        let n = self.num_fields();
        let mut r: Vec<SlotTy> = Vec::new();
        let mut i: usize = 0;
        while i < self.optional_fields.len()
            invariant
                i <= self.optional_fields@.len(),
                offset == self.required_fields@.len(),
                offset + self.optional_fields@.len() <= usize::MAX,
                r@.len() == i,
                forall|j: int|
                    0 <= j < i ==> r@[j]@ == SlotTyView::Var(
                        spec_slot_param_name((offset + j + 1) as nat),
                    ),
            decreases self.optional_fields@.len() - i,
        {
            let name = slot_param_name(offset + i + 1);
            r.push(SlotTy::Var(name));
            i += 1;
        }
        assert(forall|j: int| 0 <= j < r@.len() ==> r.deep_view()[j] == r@[j]@);
        r
    }

    /// The instantiation under which construction is well-typed: every
    /// required slot holds its field's declared type, every optional slot
    /// is left free.
    pub fn satisfied_generics(&self) -> (r: Vec<SlotTy>)
        requires
            self.wf(),
        ensures
            r.deep_view().len() == self.required_fields@.len() + self.optional_fields@.len(),
            forall|j: int|
                0 <= j < self.required_fields@.len() ==> r.deep_view()[j] == SlotTyView::Concrete(
                    self.required_fields.deep_view()[j].ty,
                ),
            forall|j: int|
                self.required_fields@.len() <= j < r.deep_view().len() ==> r.deep_view()[j]
                    == SlotTyView::Var(spec_slot_param_name((j + 1) as nat)),
    {
        let nreq = self.required_fields.len();
        let mut r: Vec<SlotTy> = Vec::new();
        let mut i: usize = 0;
        while i < nreq
            invariant
                i <= nreq,
                nreq == self.required_fields@.len(),
                r@.len() == i,
                forall|j: int|
                    0 <= j < i ==> r@[j]@ == SlotTyView::Concrete(
                        self.required_fields.deep_view()[j].ty,
                    ),
            decreases nreq - i,
        {
            assert(self.required_fields.deep_view()[i as int] == self.required_fields@[i as int]@);
            r.push(SlotTy::Concrete(clone_tokens(&self.required_fields[i].ty)));
            i += 1;
        }
        let nopt = self.optional_fields.len();
        let mut k: usize = 0;
        while k < nopt
            invariant
                k <= nopt,
                nreq == self.required_fields@.len(),
                nopt == self.optional_fields@.len(),
                nreq + nopt <= usize::MAX,
                r@.len() == nreq + k,
                forall|j: int|
                    0 <= j < nreq ==> r@[j]@ == SlotTyView::Concrete(
                        self.required_fields.deep_view()[j].ty,
                    ),
                forall|j: int|
                    nreq <= j < nreq + k ==> r@[j]@ == SlotTyView::Var(
                        spec_slot_param_name((j + 1) as nat),
                    ),
            decreases nopt - k,
        {
            let name = slot_param_name(nreq + k + 1);
            r.push(SlotTy::Var(name));
            k += 1;
        }
        assert(forall|j: int| 0 <= j < r@.len() ==> r.deep_view()[j] == r@[j]@);
        r
    }

    /// The three slot lists a setter for slot `index` works with: the
    /// free parameters of the other slots, the receiving instantiation
    /// (slot `index` unset), and the resulting instantiation (slot
    /// `index` holding `after_ty`).
    pub fn get_generics(&self, index: usize, after_ty: Vec<Tok>) -> (r: (
        Vec<SlotTy>,
        Vec<SlotTy>,
        Vec<SlotTy>,
    ))
        requires
            self.wf(),
            index < self.required_fields@.len() + self.optional_fields@.len(),
        ensures
            ({
                let (other, before, after) = r;
                let n = self.required_fields@.len() + self.optional_fields@.len();
                &&& other.deep_view().len() == n - 1
                &&& forall|j: int|
                    0 <= j < index ==> other.deep_view()[j] == SlotTyView::Var(
                        spec_slot_param_name((j + 1) as nat),
                    )
                &&& forall|j: int|
                    index <= j < n - 1 ==> other.deep_view()[j] == SlotTyView::Var(
                        spec_slot_param_name((j + 2) as nat),
                    )
                &&& before.deep_view().len() == n
                &&& before.deep_view()[index as int] == SlotTyView::Unset
                &&& forall|j: int|
                    0 <= j < n && j != index ==> before.deep_view()[j] == SlotTyView::Var(
                        spec_slot_param_name((j + 1) as nat),
                    )
                &&& after.deep_view().len() == n
                &&& after.deep_view()[index as int] == SlotTyView::Concrete(after_ty.deep_view())
                &&& forall|j: int|
                    0 <= j < n && j != index ==> after.deep_view()[j] == SlotTyView::Var(
                        spec_slot_param_name((j + 1) as nat),
                    )
            }),
    {
        let n = self.num_fields();
        let mut other: Vec<SlotTy> = Vec::new();
        let mut before: Vec<SlotTy> = Vec::new();
        let mut after: Vec<SlotTy> = Vec::new();
        let mut i: usize = 0;
        while i < n
            invariant
                i <= n,
                index < n,
                n <= usize::MAX,
                before@.len() == i,
                after@.len() == i,
                other@.len() == if i <= index {
                    i as int
                } else {
                    i - 1
                },
                forall|j: int|
                    0 <= j < i && j != index ==> before@[j]@ == SlotTyView::Var(
                        spec_slot_param_name((j + 1) as nat),
                    ),
                i > index ==> before@[index as int]@ == SlotTyView::Unset,
                forall|j: int|
                    0 <= j < i && j != index ==> after@[j]@ == SlotTyView::Var(
                        spec_slot_param_name((j + 1) as nat),
                    ),
                i > index ==> after@[index as int]@ == SlotTyView::Concrete(after_ty.deep_view()),
                forall|j: int|
                    0 <= j < i && j < index ==> other@[j]@ == SlotTyView::Var(
                        spec_slot_param_name((j + 1) as nat),
                    ),
                forall|j: int|
                    index <= j < other@.len() ==> other@[j]@ == SlotTyView::Var(
                        spec_slot_param_name((j + 2) as nat),
                    ),
            decreases n - i,
        {
            let name = slot_param_name(i + 1);
            if i == index {
                before.push(SlotTy::Unset);
                after.push(SlotTy::Concrete(clone_tokens(&after_ty)));
            } else {
                other.push(SlotTy::Var(name.clone()));
                before.push(SlotTy::Var(name.clone()));
                after.push(SlotTy::Var(name.clone()));
            }
            i += 1;
        }
        assert(forall|j: int| 0 <= j < other@.len() ==> other.deep_view()[j] == other@[j]@);
        assert(forall|j: int| 0 <= j < before@.len() ==> before.deep_view()[j] == before@[j]@);
        assert(forall|j: int| 0 <= j < after@.len() ==> after.deep_view()[j] == after@[j]@);
        (other, before, after)
    }
}

/// The set-or-unset state of the builder's slots, one entry per field in
/// canonical order.
pub open spec fn spec_initial_filled(input: StructInput) -> Seq<bool> {
    let nreq = input.required_fields.deep_view().len() as int;
    let nopt = input.optional_fields.deep_view().len() as int;
    Seq::new(
        (nreq + nopt) as nat,
        |i: int|
            if i < nreq {
                false
            } else {
                match input.optional_fields.deep_view()[i - nreq].attrs.default {
                    Some(d) => d is Immediate
                        && !input.optional_fields.deep_view()[i - nreq].attrs.late_bound_default,
                    None => false,
                }
            },
    )
}

/// The slot states after one setter call: exactly slot `i` is rewritten
/// to set.
pub open spec fn spec_set_slot(state: Seq<bool>, i: int) -> Seq<bool> {
    state.update(i, true)
}

/// The slot states after a sequence of setter calls.
pub open spec fn spec_apply_calls(state: Seq<bool>, calls: Seq<int>) -> Seq<bool>
    decreases calls.len(),
{
    if calls.len() == 0 {
        state
    } else {
        spec_apply_calls(spec_set_slot(state, calls[0]), calls.skip(1))
    }
}

/// The terminal predicate: construction is well-typed exactly when every
/// required slot is set.
pub open spec fn spec_can_build(input: StructInput, state: Seq<bool>) -> bool {
    &&& state.len() == input.required_fields.deep_view().len()
        + input.optional_fields.deep_view().len()
    &&& forall|i: int|
        0 <= i < input.required_fields.deep_view().len() ==> #[trigger] state[i]
}

/// A setter call only changes its own slot: after any sequence of calls,
/// a slot is set exactly when it started set or some call named it.
pub proof fn lemma_apply_calls_pointwise(state: Seq<bool>, calls: Seq<int>, i: int)
    requires
        0 <= i < state.len(),
        forall|k: int| 0 <= k < calls.len() ==> 0 <= #[trigger] calls[k] < state.len(),
    ensures
        spec_apply_calls(state, calls).len() == state.len(),
        spec_apply_calls(state, calls)[i] == (state[i] || calls.contains(i)),
    decreases calls.len(),
{
    if calls.len() == 0 {
    } else {
        let next = spec_set_slot(state, calls[0]);
        assert(forall|k: int| 0 <= k < calls.skip(1).len() ==> calls.skip(1)[k] == calls[k + 1]);
        lemma_apply_calls_pointwise(next, calls.skip(1), i);
        if calls[0] == i {
            assert(calls.contains(i));
        } else {
            assert(next[i] == state[i]);
            if calls.skip(1).contains(i) {
                let k = choose|k: int| 0 <= k < calls.skip(1).len() && calls.skip(1)[k] == i;
                assert(calls[k + 1] == i);
                assert(calls.contains(i));
            } else if calls.contains(i) {
                let k = choose|k: int| 0 <= k < calls.len() && calls[k] == i;
                assert(k > 0);
                assert(calls.skip(1)[k - 1] == i);
                assert(calls.skip(1).contains(i));
            }
        }
    }
}

/// Required-field completeness: a sequence of setter calls that omits a
/// required field leaves the terminal predicate false, so no
/// construction entry point is available.
pub proof fn lemma_required_field_completeness(input: StructInput, calls: Seq<int>, r: int)
    requires
        input.wf(),
        0 <= r < input.required_fields.deep_view().len(),
        forall|k: int|
            0 <= k < calls.len() ==> 0 <= #[trigger] calls[k] < spec_initial_filled(input).len(),
        forall|k: int| 0 <= k < calls.len() ==> #[trigger] calls[k] != r,
    ensures
        !spec_can_build(input, spec_apply_calls(spec_initial_filled(input), calls)),
{
    let init = spec_initial_filled(input);
    lemma_apply_calls_pointwise(init, calls, r);
    assert(!init[r]);
    if calls.contains(r) {
        let k = choose|k: int| 0 <= k < calls.len() && calls[k] == r;
        assert(calls[k] != r);
    }
    assert(!spec_apply_calls(init, calls)[r]);
}

/// Order independence of the type-state: two call sequences that name
/// the same set of slots lead to the same slot states.
pub proof fn lemma_order_independence(state: Seq<bool>, calls1: Seq<int>, calls2: Seq<int>)
    requires
        forall|k: int| 0 <= k < calls1.len() ==> 0 <= #[trigger] calls1[k] < state.len(),
        forall|k: int| 0 <= k < calls2.len() ==> 0 <= #[trigger] calls2[k] < state.len(),
        forall|i: int| calls1.contains(i) <==> calls2.contains(i),
    ensures
        spec_apply_calls(state, calls1) == spec_apply_calls(state, calls2),
{
    assert forall|i: int| 0 <= i < state.len() implies spec_apply_calls(state, calls1)[i]
        == spec_apply_calls(state, calls2)[i] by {
        lemma_apply_calls_pointwise(state, calls1, i);
        lemma_apply_calls_pointwise(state, calls2, i);
    }
    lemma_apply_calls_len(state, calls1);
    lemma_apply_calls_len(state, calls2);
    assert(spec_apply_calls(state, calls1) =~= spec_apply_calls(state, calls2));
}

proof fn lemma_apply_calls_len(state: Seq<bool>, calls: Seq<int>)
    requires
        forall|k: int| 0 <= k < calls.len() ==> 0 <= #[trigger] calls[k] < state.len(),
    ensures
        spec_apply_calls(state, calls).len() == state.len(),
    decreases calls.len(),
{
    if calls.len() > 0 {
        assert(forall|k: int| 0 <= k < calls.skip(1).len() ==> calls.skip(1)[k] == calls[k + 1]);
        lemma_apply_calls_len(spec_set_slot(state, calls[0]), calls.skip(1));
    }
}

} // verus!
