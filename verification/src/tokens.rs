//! Flat token lists.
//!
//! The generator manipulates fragments of source text: field types,
//! default expressions, validator references. Each fragment is kept as a
//! flat list of tokens, where an identifier is distinguished from every
//! other piece of text (punctuation, literals, delimiters). The only
//! structural operation the generator needs is the replacement of chosen
//! identifiers, either by a marked variant of themselves or by another
//! fragment.

use vstd::prelude::*;

verus! {

/// One token of a source fragment: an identifier, or any other piece of
/// text kept verbatim.
pub enum Tok {
    Ident(String),
    Other(String),
}

/// The mathematical value of a token.
pub enum TokView {
    Ident(Seq<char>),
    Other(Seq<char>),
}

impl View for Tok {
    type V = TokView;

    open spec fn view(&self) -> TokView {
        match self {
            Tok::Ident(s) => TokView::Ident(s@),
            Tok::Other(s) => TokView::Other(s@),
        }
    }
}

impl DeepView for Tok {
    type V = TokView;

    open spec fn deep_view(&self) -> TokView {
        self.view()
    }
}

impl Clone for Tok {
    fn clone(&self) -> (r: Tok)
        ensures
            r@ == self@,
    {
        match self {
            Tok::Ident(s) => Tok::Ident(s.clone()),
            Tok::Other(s) => Tok::Other(s.clone()),
        }
    }
}

/// The text of a token value.
pub open spec fn tok_text(t: TokView) -> Seq<char> {
    match t {
        TokView::Ident(s) => s,
        TokView::Other(s) => s,
    }
}

/// Whether a token value is an identifier listed in `names`.
pub open spec fn tok_is_listed_ident(t: TokView, names: Seq<Seq<char>>) -> bool {
    match t {
        TokView::Ident(s) => names.contains(s),
        TokView::Other(_) => false,
    }
}

/// The identifier `ident` with an underscore appended.
pub fn ident_add_underscore(ident: &String) -> (r: String)
    ensures
        r@ == ident@ + "_"@,
{
    ident.as_str().to_owned().concat("_")
}

/// Whether `names` holds a string equal to `s`.
pub fn contains_string(names: &Vec<String>, s: &String) -> (r: bool)
    ensures
        r == names.deep_view().contains(s@),
{
    let mut i: usize = 0;
    while i < names.len()
        invariant
            i <= names.len(),
            forall|j: int| 0 <= j < i ==> names.deep_view()[j] != s@,
        decreases names.len() - i,
    {
        assert(names.deep_view()[i as int] == names@[i as int]@);
        if names[i].eq(s) {
            return true;
        }
        i += 1;
    }
    assert(forall|j: int| 0 <= j < names.deep_view().len() ==> names.deep_view()[j] != s@);
    return false;
}

/// The token list `s` with every identifier listed in `names` replaced by
/// the same identifier with an underscore appended; every other token is
/// kept.
pub open spec fn spec_replace_underscore(s: Seq<TokView>, names: Seq<Seq<char>>) -> Seq<TokView> {
    s.map(
        |i: int, t: TokView|
            if tok_is_listed_ident(t, names) {
                TokView::Ident(tok_text(t) + "_"@)
            } else {
                t
            },
    )
}

/// Replaces every occurrence of an identifier listed in `params` by the
/// underscored form of that identifier, leaving all other tokens as they
/// are.
pub fn replace_params_underscore(stream: &Vec<Tok>, params: &Vec<String>) -> (r: Vec<Tok>)
    ensures
        r.deep_view() == spec_replace_underscore(stream.deep_view(), params.deep_view()),
{
    let ghost goal = spec_replace_underscore(stream.deep_view(), params.deep_view());
    let mut r: Vec<Tok> = Vec::new();
    let mut i: usize = 0;
    while i < stream.len()
        invariant
            i <= stream.len(),
            goal == spec_replace_underscore(stream.deep_view(), params.deep_view()),
            goal.len() == stream.deep_view().len(),
            r@.len() == i,
            forall|j: int| 0 <= j < i ==> r@[j]@ == goal[j],
        decreases stream.len() - i,
    {
        assert(stream.deep_view()[i as int] == stream@[i as int]@);
        let replaced: Tok = match &stream[i] {
            Tok::Ident(name) => {
                if contains_string(params, name) {
                    Tok::Ident(ident_add_underscore(name))
                } else {
                    Tok::Ident(name.clone())
                }
            },
            Tok::Other(text) => Tok::Other(text.clone()),
        };
        assert(replaced@ == goal[i as int]);
        r.push(replaced);
        i += 1;
    }
    assert(r.deep_view() =~= goal);
    r
}

/// Copies a token list.
pub fn clone_tokens(v: &Vec<Tok>) -> (r: Vec<Tok>)
    ensures
        r.deep_view() == v.deep_view(),
{
    let r = v.clone();
    proof {
        assert(forall|i: int| 0 <= i < v@.len() ==> r@[i]@ == v@[i]@);
        assert(r.deep_view() =~= v.deep_view());
    }
    r
}

/// Copies a list of names.
pub fn clone_strings(v: &Vec<String>) -> (r: Vec<String>)
    ensures
        r.deep_view() == v.deep_view(),
{
    let r = v.clone();
    proof {
        assert(forall|i: int| 0 <= i < v@.len() ==> r@[i]@ == v@[i]@);
        assert(r.deep_view() =~= v.deep_view());
    }
    r
}

/// A replacement of one identifier by a token fragment.
pub struct Binding {
    pub name: String,
    pub replacement: Vec<Tok>,
}

/// The mathematical value of a [`Binding`].
pub struct BindingView {
    pub name: Seq<char>,
    pub replacement: Seq<TokView>,
}

impl View for Binding {
    type V = BindingView;

    open spec fn view(&self) -> BindingView {
        BindingView { name: self.name@, replacement: self.replacement.deep_view() }
    }
}

impl DeepView for Binding {
    type V = BindingView;

    open spec fn deep_view(&self) -> BindingView {
        self.view()
    }
}

/// The replacement that `table` assigns to `name`: the first binding of
/// that name, if any.
pub open spec fn spec_lookup(table: Seq<BindingView>, name: Seq<char>) -> Option<Seq<TokView>>
    decreases table.len(),
{
    if table.len() == 0 {
        None
    } else if table[0].name == name {
        Some(table[0].replacement)
    } else {
        spec_lookup(table.skip(1), name)
    }
}

proof fn lemma_lookup_skip(table: Seq<BindingView>, name: Seq<char>, i: int)
    requires
        0 <= i <= table.len(),
        forall|j: int| 0 <= j < i ==> table[j].name != name,
    ensures
        spec_lookup(table, name) == spec_lookup(table.skip(i), name),
    decreases i,
{
    if i > 0 {
        assert(table[0].name != name);
        assert(spec_lookup(table, name) == spec_lookup(table.skip(1), name));
        assert(forall|j: int| 0 <= j < i - 1 ==> table.skip(1)[j] == table[j + 1]);
        lemma_lookup_skip(table.skip(1), name, i - 1);
        assert(table.skip(1).skip(i - 1) =~= table.skip(i));
        assert(spec_lookup(table.skip(1), name) == spec_lookup(table.skip(i), name));
    } else {
        assert(table.skip(0) =~= table);
    }
}

/// The token list `s` with every identifier bound in `table` replaced by
/// its bound fragment; every other token is kept.
pub open spec fn spec_substitute(s: Seq<TokView>, table: Seq<BindingView>) -> Seq<TokView>
    decreases s.len(),
{
    if s.len() == 0 {
        Seq::empty()
    } else {
        let head = match s[0] {
            TokView::Ident(x) => match spec_lookup(table, x) {
                Some(frag) => frag,
                None => seq![s[0]],
            },
            TokView::Other(_) => seq![s[0]],
        };
        head + spec_substitute(s.skip(1), table)
    }
}

/// The index of the first binding for `name` in `table`, if any.
fn find_binding(table: &Vec<Binding>, name: &String) -> (r: Option<usize>)
    ensures
        match r {
            Some(k) => k < table@.len() && spec_lookup(table.deep_view(), name@) == Some(
                table@[k as int]@.replacement,
            ),
            None => spec_lookup(table.deep_view(), name@) is None,
        },
{
    let ghost tv = table.deep_view();
    let mut i: usize = 0;
    while i < table.len()
        invariant
            i <= table.len(),
            tv == table.deep_view(),
            tv.len() == table@.len(),
            forall|j: int| 0 <= j < i ==> tv[j].name != name@,
        decreases table.len() - i,
    {
        assert(tv[i as int] == table@[i as int]@);
        if table[i].name.eq(name) {
            proof {
                lemma_lookup_skip(tv, name@, i as int);
                assert(tv.skip(i as int)[0] == tv[i as int]);
            }
            return Some(i);
        }
        i += 1;
    }
    proof {
        lemma_lookup_skip(tv, name@, tv.len() as int);
        assert(tv.skip(tv.len() as int) =~= Seq::<BindingView>::empty());
    }
    None
}

/// Appends a copy of every token of `src` to `dst`.
pub fn extend_tokens(dst: &mut Vec<Tok>, src: &Vec<Tok>)
    ensures
        final(dst).deep_view() == old(dst).deep_view() + src.deep_view(),
{
    let ghost sv = src.deep_view();
    let ghost base = old(dst).deep_view();
    let mut i: usize = 0;
    while i < src.len()
        invariant
            i <= src.len(),
            sv == src.deep_view(),
            base.len() == old(dst)@.len(),
            sv.len() == src@.len(),
            dst@.len() == base.len() + i,
            forall|j: int| 0 <= j < base.len() ==> dst@[j]@ == base[j],
            forall|j: int| 0 <= j < i ==> dst@[base.len() + j]@ == sv[j],
        decreases src.len() - i,
    {
        assert(sv[i as int] == src@[i as int]@);
        dst.push(src[i].clone());
        i += 1;
    }
    assert(final(dst).deep_view() =~= base + sv);
}

/// Replaces every occurrence of an identifier bound in `table` by the
/// fragment bound to it, leaving all other tokens as they are.
pub fn substitute_params(stream: &Vec<Tok>, table: &Vec<Binding>) -> (r: Vec<Tok>)
    ensures
        r.deep_view() == spec_substitute(stream.deep_view(), table.deep_view()),
{
    let ghost sv = stream.deep_view();
    let ghost tv = table.deep_view();
    let mut r: Vec<Tok> = Vec::new();
    let mut i: usize = 0;
    proof {
        assert(sv.skip(0) =~= sv);
        assert(r.deep_view() =~= Seq::<TokView>::empty());
    }
    while i < stream.len()
        invariant
            i <= stream.len(),
            sv == stream.deep_view(),
            tv == table.deep_view(),
            sv.len() == stream@.len(),
            spec_substitute(sv, tv) == r.deep_view() + spec_substitute(sv.skip(i as int), tv),
        decreases stream.len() - i,
    {
        let ghost pre = r.deep_view();
        assert(sv[i as int] == stream@[i as int]@);
        assert(sv.skip(i as int)[0] == sv[i as int]);
        match &stream[i] {
            Tok::Ident(name) => {
                match find_binding(table, name) {
                    Some(k) => {
                        let frag = &table[k].replacement;
                        assert(frag.deep_view() == tv[k as int].replacement);
                        extend_tokens(&mut r, frag);
                    },
                    None => {
                        r.push(Tok::Ident(name.clone()));
                        assert(r.deep_view() =~= pre + seq![sv[i as int]]);
                    },
                }
            },
            Tok::Other(text) => {
                r.push(Tok::Other(text.clone()));
                assert(r.deep_view() =~= pre + seq![sv[i as int]]);
            },
        }
        proof {
            assert(sv.skip(i as int).skip(1) =~= sv.skip(i + 1));
            assert(spec_substitute(sv, tv) =~= r.deep_view() + spec_substitute(sv.skip(i + 1), tv));
        }
        i += 1;
    }
    proof {
        assert(sv.skip(sv.len() as int) =~= Seq::<TokView>::empty());
        assert(r.deep_view() =~= spec_substitute(sv, tv));
    }
    r
}

/// The texts of the tokens of `s`, joined by single spaces.
pub open spec fn spec_join_space(s: Seq<TokView>) -> Seq<char>
    decreases s.len(),
{
    if s.len() == 0 {
        Seq::empty()
    } else if s.len() == 1 {
        tok_text(s[0])
    } else {
        tok_text(s[0]) + " "@ + spec_join_space(s.skip(1))
    }
}

/// Renders a token list as text, with a single space between tokens.
pub fn join_space(stream: &Vec<Tok>) -> (r: String)
    ensures
        r@ == spec_join_space(stream.deep_view()),
{
    let ghost sv = stream.deep_view();
    let mut r = String::new();
    let mut i: usize = 0;
    proof {
        assert(sv.skip(0) =~= sv);
    }
    while i < stream.len()
        invariant
            i <= stream.len(),
            sv == stream.deep_view(),
            sv.len() == stream@.len(),
            spec_join_space(sv) == r@ + spec_join_space(sv.skip(i as int)),
        decreases stream.len() - i,
    {
        assert(sv[i as int] == stream@[i as int]@);
        assert(sv.skip(i as int)[0] == sv[i as int]);
        let text: &String = match &stream[i] {
            Tok::Ident(s) => s,
            Tok::Other(s) => s,
        };
        let mut grown = r;
        grown.append(text.as_str());
        if i + 1 < stream.len() {
            grown.append(" ");
            proof {
                reveal_strlit(" ");
            }
        }
        r = grown;
        proof {
            assert(sv.skip(i as int).skip(1) =~= sv.skip(i + 1));
            if i + 1 == stream.len() {
                assert(sv.skip(i + 1) =~= Seq::<TokView>::empty());
            }
        }
        i += 1;
    }
    proof {
        if stream.len() == 0 {
        } else {
            assert(sv.skip(sv.len() as int) =~= Seq::<TokView>::empty());
        }
    }
    r
}

} // verus!
