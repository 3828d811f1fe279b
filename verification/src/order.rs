//! Canonical field order.
//!
//! Fields are kept sorted by their identifiers, so that the generated
//! type-state tuple has a deterministic, stable shape. The order is the
//! lexicographic order on the identifiers' characters, compared by their
//! scalar values.

use vstd::multiset::Multiset;
use vstd::prelude::*;

use crate::schema::Field;
use crate::schema::FieldView;

verus! {

/// Lexicographic order on character sequences: `a` comes no later than
/// `b`.
pub open spec fn lex_le(a: Seq<char>, b: Seq<char>) -> bool
    decreases a.len(),
{
    if a.len() == 0 {
        true
    } else if b.len() == 0 {
        false
    } else if a[0] as u32 == b[0] as u32 {
        lex_le(a.skip(1), b.skip(1))
    } else {
        (a[0] as u32) < (b[0] as u32)
    }
}

/// The lexicographic order is total: of any two sequences, one comes no
/// later than the other.
pub proof fn lemma_lex_le_total(a: Seq<char>, b: Seq<char>)
    ensures
        lex_le(a, b) || lex_le(b, a),
    decreases a.len(),
{
    if a.len() > 0 && b.len() > 0 && a[0] as u32 == b[0] as u32 {
        lemma_lex_le_total(a.skip(1), b.skip(1));
    }
}

/// The lexicographic order is transitive.
pub proof fn lemma_lex_le_trans(a: Seq<char>, b: Seq<char>, c: Seq<char>)
    requires
        lex_le(a, b),
        lex_le(b, c),
    ensures
        lex_le(a, c),
    decreases a.len(),
{
    if a.len() > 0 && b.len() > 0 && c.len() > 0 && a[0] as u32 == b[0] as u32 && b[0] as u32
        == c[0] as u32 {
        lemma_lex_le_trans(a.skip(1), b.skip(1), c.skip(1));
    }
}

proof fn lemma_lex_le_common_prefix(a: Seq<char>, b: Seq<char>, i: int)
    requires
        0 <= i <= a.len(),
        i <= b.len(),
        forall|j: int| 0 <= j < i ==> a[j] as u32 == b[j] as u32,
    ensures
        lex_le(a, b) == lex_le(a.skip(i), b.skip(i)),
    decreases i,
{
    if i > 0 {
        assert(forall|j: int| 0 <= j < i - 1 ==> a.skip(1)[j] as u32 == b.skip(1)[j] as u32);
        lemma_lex_le_common_prefix(a.skip(1), b.skip(1), i - 1);
        assert(a.skip(1).skip(i - 1) =~= a.skip(i));
        assert(b.skip(1).skip(i - 1) =~= b.skip(i));
    } else {
        assert(a.skip(0) =~= a);
        assert(b.skip(0) =~= b);
    }
}

/// Compares two pieces of text in the lexicographic order.
pub fn str_le(a: &str, b: &str) -> (r: bool)
    ensures
        r == lex_le(a@, b@),
{
    let a_len = a.unicode_len();
    let b_len = b.unicode_len();
    let mut i: usize = 0;
    while i < a_len && i < b_len
        invariant
            i <= a_len,
            i <= b_len,
            a_len == a@.len(),
            b_len == b@.len(),
            forall|j: int| 0 <= j < i ==> a@[j] as u32 == b@[j] as u32,
        decreases a_len - i,
    {
        let ca = a.get_char(i);
        let cb = b.get_char(i);
        if ca as u32 != cb as u32 {
            proof {
                lemma_lex_le_common_prefix(a@, b@, i as int);
                assert(a@.skip(i as int)[0] == a@[i as int]);
                assert(b@.skip(i as int)[0] == b@[i as int]);
            }
            return (ca as u32) < (cb as u32);
        }
        i += 1;
    }
    proof {
        lemma_lex_le_common_prefix(a@, b@, i as int);
        if i == a_len {
            assert(a@.skip(i as int).len() == 0);
        } else {
            assert(b@.skip(i as int).len() == 0);
            assert(a@.skip(i as int).len() > 0);
        }
    }
    i == a_len
}

/// Whether `s` is sorted by field identifier.
pub open spec fn fields_sorted(s: Seq<FieldView>) -> bool {
    forall|i: int, j: int|
        0 <= i < j < s.len() ==> #[trigger] lex_le(s[i].ident, s[j].ident)
}

/// The first position of `v` whose field identifier comes strictly after
/// that of `f`; the length of `v` if there is none.
fn find_insert_pos(v: &Vec<Field>, f: &Field) -> (pos: usize)
    ensures
        pos <= v@.len(),
        forall|j: int| 0 <= j < pos ==> lex_le(v.deep_view()[j].ident, f@.ident),
        pos < v@.len() ==> !lex_le(v.deep_view()[pos as int].ident, f@.ident),
{
    let ghost dv = v.deep_view();
    let mut pos: usize = 0;
    while pos < v.len()
        invariant
            pos <= v.len(),
            dv == v.deep_view(),
            dv.len() == v@.len(),
            forall|j: int| 0 <= j < pos ==> lex_le(dv[j].ident, f@.ident),
        decreases v.len() - pos,
    {
        assert(dv[pos as int] == v@[pos as int]@);
        if !str_le(v[pos].ident.as_str(), f.ident.as_str()) {
            return pos;
        }
        pos += 1;
    }
    pos
}

/// Inserts `f` into the sorted list `v`, keeping it sorted and adding
/// exactly `f` to its contents.
fn insert_sorted(v: Vec<Field>, f: Field) -> (r: Vec<Field>)
    requires
        fields_sorted(v.deep_view()),
    ensures
        fields_sorted(r.deep_view()),
        r.deep_view().to_multiset() == v.deep_view().to_multiset().insert(f@),
        r.deep_view().len() == v.deep_view().len() + 1,
{
    let ghost dv = v.deep_view();
    let pos = find_insert_pos(&v, &f);
    proof {
        if pos < v.len() {
            lemma_lex_le_total(dv[pos as int].ident, f@.ident);
            assert(lex_le(f@.ident, dv[pos as int].ident));
        }
    }
    let ghost fv = f@;
    let mut out = v;
    out.insert(pos, f);
    proof {
        let odv = out.deep_view();
        assert(out@ == v@.insert(pos as int, f));
        assert(odv.len() == dv.len() + 1);
        assert(forall|j: int| 0 <= j < pos ==> odv[j] == dv[j]);
        assert(odv[pos as int] == fv);
        assert(forall|j: int| pos < j < odv.len() ==> odv[j] == dv[j - 1]);
        // every element at or past the insertion point is at least `f`
        assert(forall|j: int|
            pos <= j < dv.len() ==> #[trigger] lex_le(fv.ident, dv[j].ident)) by {
            if pos < dv.len() {
                assert forall|j: int| pos <= j < dv.len() implies #[trigger] lex_le(
                    fv.ident,
                    dv[j].ident,
                ) by {
                    if j > pos {
                        assert(lex_le(dv[pos as int].ident, dv[j].ident));
                        lemma_lex_le_trans(fv.ident, dv[pos as int].ident, dv[j].ident);
                    }
                }
            }
        }
        assert forall|i: int, j: int| 0 <= i < j < odv.len() implies #[trigger] lex_le(
            odv[i].ident,
            odv[j].ident,
        ) by {
            if i < pos && j < pos {
            } else if i == pos as int && j > pos {
                assert(lex_le(fv.ident, dv[j - 1].ident));
            } else if i < pos && j == pos as int {
            } else if i < pos && j > pos {
                assert(lex_le(dv[i].ident, dv[j - 1].ident));
            } else if i > pos {
                assert(lex_le(dv[i - 1].ident, dv[j - 1].ident));
            }
        }
        // the contents grow by exactly `f`
        assert(odv =~= dv.take(pos as int) + seq![fv] + dv.skip(pos as int));
        assert(dv =~= dv.take(pos as int) + dv.skip(pos as int));
        vstd::seq_lib::lemma_multiset_commutative(dv.take(pos as int) + seq![fv], dv.skip(pos as int));
        vstd::seq_lib::lemma_multiset_commutative(dv.take(pos as int), seq![fv]);
        vstd::seq_lib::lemma_multiset_commutative(dv.take(pos as int), dv.skip(pos as int));
        assert((dv.take(pos as int) + seq![fv] + dv.skip(pos as int)).to_multiset() =~= dv
            .to_multiset().insert(fv)) by {
            broadcast use vstd::seq_lib::group_to_multiset_ensures;

            assert(seq![fv].to_multiset() =~= Multiset::empty().insert(fv)) by {
                assert(seq![fv] =~= Seq::<FieldView>::empty().push(fv));
                assert(Seq::<FieldView>::empty().to_multiset() =~= Multiset::<
                    FieldView,
                >::empty());
            }
        }
    }
    out
}

/// Sorts `v` by field identifier: the result is sorted and holds exactly
/// the same fields.
pub fn sort_fields(v: Vec<Field>) -> (r: Vec<Field>)
    ensures
        fields_sorted(r.deep_view()),
        r.deep_view().to_multiset() == v.deep_view().to_multiset(),
        r.deep_view().len() == v.deep_view().len(),
{
    let ghost dv = v.deep_view();
    let mut rest = v;
    let mut out: Vec<Field> = Vec::new();
    proof {
        broadcast use vstd::seq_lib::group_to_multiset_ensures;

        assert(out.deep_view() =~= Seq::<FieldView>::empty());
        assert(dv.skip(0) =~= dv);
    }
    let mut i: usize = 0;
    while i < rest.len()
        invariant
            i <= rest.len(),
            dv == rest.deep_view(),
            dv.len() == rest@.len(),
            fields_sorted(out.deep_view()),
            out.deep_view().len() == i,
            out.deep_view().to_multiset() == dv.take(i as int).to_multiset(),
        decreases rest.len() - i,
    {
        assert(dv[i as int] == rest@[i as int]@);
        let f = take_field(&rest, i);
        let ghost fv = f@;
        out = insert_sorted(out, f);
        proof {
            broadcast use vstd::seq_lib::group_to_multiset_ensures;

            assert(dv.take(i + 1) =~= dv.take(i as int).push(fv));
        }
        i += 1;
    }
    proof {
        assert(dv.take(dv.len() as int) =~= dv);
    }
    out
}

/// Copies the field at index `i` of `v`.
fn take_field(v: &Vec<Field>, i: usize) -> (r: Field)
    requires
        i < v@.len(),
    ensures
        r@ == v.deep_view()[i as int],
{
    let f = &v[i];
    let r = Field {
        vis: f.vis,
        ident: f.ident.clone(),
        ty: crate::tokens::clone_tokens(&f.ty),
        attrs: clone_attributes(&f.attrs),
    };
    proof {
        assert(v.deep_view()[i as int] == v@[i as int]@);
    }
    r
}

/// Copies a folded attribute set.
fn clone_attributes(a: &crate::schema::FieldAttributes) -> (r: crate::schema::FieldAttributes)
    ensures
        r@ == a@,
{
    let default = match &a.default {
        Some(d) => Some(
            match d {
                crate::schema::DefaultRule::Immediate(e) => crate::schema::DefaultRule::Immediate(
                    crate::tokens::clone_tokens(e),
                ),
                crate::schema::DefaultRule::Lazy(e) => crate::schema::DefaultRule::Lazy(
                    crate::tokens::clone_tokens(e),
                ),
            },
        ),
        None => None,
    };
    let validator = match &a.validator {
        Some(e) => Some(crate::tokens::clone_tokens(e)),
        None => None,
    };
    crate::schema::FieldAttributes {
        default,
        use_into: a.use_into,
        validator,
        documents: crate::tokens::clone_strings(&a.documents),
        setters: a.setters,
        vis: a.vis,
        late_bound_default: a.late_bound_default,
        use_inferred: crate::tokens::clone_strings(&a.use_inferred),
        infer: crate::tokens::clone_strings(&a.infer),
    }
}

} // verus!
