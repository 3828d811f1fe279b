//! The record model.
//!
//! A [`StructInput`] is the already-parsed description of one record: its
//! name, its visibility, its generic parameters, and its fields, the
//! latter partitioned into required fields (no default rule) and optional
//! fields (a default rule is present), each partition in canonical order.

use vstd::prelude::*;

use crate::names::spec_slot_param_name;
use crate::names::slot_param_name;
use crate::order::fields_sorted;
use crate::order::sort_fields;
use crate::schema::Attr;
use crate::schema::Field;
use crate::schema::FieldAttributes;
use crate::schema::FieldView;
use crate::schema::FieldVisibility;
use crate::schema::SchemaError;
use crate::schema::spec_field_attributes;
use crate::tokens::Tok;
use crate::tokens::TokView;

verus! {

/// A lifetime parameter of the record, with its outlives bounds. The
/// names carry their leading tick.
pub struct LifetimeDef {
    pub name: String,
    pub bounds: Vec<String>,
}

/// The mathematical value of a [`LifetimeDef`].
pub struct LifetimeDefView {
    pub name: Seq<char>,
    pub bounds: Seq<Seq<char>>,
}

impl View for LifetimeDef {
    type V = LifetimeDefView;

    open spec fn view(&self) -> LifetimeDefView {
        LifetimeDefView { name: self.name@, bounds: self.bounds.deep_view() }
    }
}

impl DeepView for LifetimeDef {
    type V = LifetimeDefView;

    open spec fn deep_view(&self) -> LifetimeDefView {
        self.view()
    }
}

/// A type parameter of the record: its name, its bounds, and the default
/// type it may carry.
pub struct TypeParamDef {
    pub ident: String,
    pub bounds: Vec<Tok>,
    pub default: Option<Vec<Tok>>,
}

/// The mathematical value of a [`TypeParamDef`].
pub struct TypeParamDefView {
    pub ident: Seq<char>,
    pub bounds: Seq<TokView>,
    pub default: Option<Seq<TokView>>,
}

impl View for TypeParamDef {
    type V = TypeParamDefView;

    open spec fn view(&self) -> TypeParamDefView {
        TypeParamDefView {
            ident: self.ident@,
            bounds: self.bounds.deep_view(),
            default: match self.default {
                Some(ref d) => Some(d.deep_view()),
                None => None,
            },
        }
    }
}

impl DeepView for TypeParamDef {
    type V = TypeParamDefView;

    open spec fn deep_view(&self) -> TypeParamDefView {
        self.view()
    }
}

/// A const parameter of the record: its name and its type.
pub struct ConstParamDef {
    pub ident: String,
    pub ty: Vec<Tok>,
}

/// The mathematical value of a [`ConstParamDef`].
pub struct ConstParamDefView {
    pub ident: Seq<char>,
    pub ty: Seq<TokView>,
}

impl View for ConstParamDef {
    type V = ConstParamDefView;

    open spec fn view(&self) -> ConstParamDefView {
        ConstParamDefView { ident: self.ident@, ty: self.ty.deep_view() }
    }
}

impl DeepView for ConstParamDef {
    type V = ConstParamDefView;

    open spec fn deep_view(&self) -> ConstParamDefView {
        self.view()
    }
}

/// One generic parameter of the record, in declaration order.
pub enum GenericParamDef {
    Lifetime(LifetimeDef),
    Type(TypeParamDef),
    Const(ConstParamDef),
}

/// The mathematical value of a [`GenericParamDef`].
pub enum GenericParamDefView {
    Lifetime(LifetimeDefView),
    Type(TypeParamDefView),
    Const(ConstParamDefView),
}

impl View for GenericParamDef {
    type V = GenericParamDefView;

    open spec fn view(&self) -> GenericParamDefView {
        match self {
            GenericParamDef::Lifetime(l) => GenericParamDefView::Lifetime(l@),
            GenericParamDef::Type(t) => GenericParamDefView::Type(t@),
            GenericParamDef::Const(c) => GenericParamDefView::Const(c@),
        }
    }
}

impl DeepView for GenericParamDef {
    type V = GenericParamDefView;

    open spec fn deep_view(&self) -> GenericParamDefView {
        self.view()
    }
}

/// One predicate of the record's `where` clause: a bounded type and its
/// bounds.
pub struct WherePredicateDef {
    pub bounded: Vec<Tok>,
    pub bounds: Vec<Tok>,
}

/// The mathematical value of a [`WherePredicateDef`].
pub struct WherePredicateDefView {
    pub bounded: Seq<TokView>,
    pub bounds: Seq<TokView>,
}

impl View for WherePredicateDef {
    type V = WherePredicateDefView;

    open spec fn view(&self) -> WherePredicateDefView {
        WherePredicateDefView { bounded: self.bounded.deep_view(), bounds: self.bounds.deep_view() }
    }
}

impl DeepView for WherePredicateDef {
    type V = WherePredicateDefView;

    open spec fn deep_view(&self) -> WherePredicateDefView {
        self.view()
    }
}

/// The record's generic parameters and `where` clause.
pub struct GenericsDef {
    pub params: Vec<GenericParamDef>,
    pub where_predicates: Vec<WherePredicateDef>,
}

/// The mathematical value of a [`GenericsDef`].
pub struct GenericsDefView {
    pub params: Seq<GenericParamDefView>,
    pub where_predicates: Seq<WherePredicateDefView>,
}

impl View for GenericsDef {
    type V = GenericsDefView;

    open spec fn view(&self) -> GenericsDefView {
        GenericsDefView {
            params: self.params.deep_view(),
            where_predicates: self.where_predicates.deep_view(),
        }
    }
}

impl DeepView for GenericsDef {
    type V = GenericsDefView;

    open spec fn deep_view(&self) -> GenericsDefView {
        self.view()
    }
}

/// One field as it stands in the record declaration, its attributes not
/// yet folded.
pub struct RawField {
    pub vis: bool,
    pub ident: String,
    pub ty: Vec<Tok>,
    pub attrs: Vec<Attr>,
}

/// The mathematical value of a [`RawField`]. The `vis` flag records
/// whether the field itself is public.
pub struct RawFieldView {
    pub vis: bool,
    pub ident: Seq<char>,
    pub ty: Seq<TokView>,
    pub attrs: Seq<crate::schema::AttrView>,
}

impl View for RawField {
    type V = RawFieldView;

    open spec fn view(&self) -> RawFieldView {
        RawFieldView {
            vis: self.vis,
            ident: self.ident@,
            ty: self.ty.deep_view(),
            attrs: self.attrs.deep_view(),
        }
    }
}

impl DeepView for RawField {
    type V = RawFieldView;

    open spec fn deep_view(&self) -> RawFieldView {
        self.view()
    }
}

/// The field a raw field folds to: its attributes folded, its visibility
/// forced public when the `public` override is present.
pub open spec fn spec_process_field(raw: RawFieldView) -> Result<FieldView, SchemaError> {
    match spec_field_attributes(raw.attrs) {
        Ok(attrs) => Ok(
            FieldView {
                vis: raw.vis || attrs.vis == FieldVisibility::Public,
                ident: raw.ident,
                ty: raw.ty,
                attrs,
            },
        ),
        Err(e) => Err(e),
    }
}

/// The partition of a record's raw fields, in declaration order: required
/// fields (no default rule) on the left, optional fields (a default rule)
/// on the right; the first schema error aborts it.
pub open spec fn spec_partition_fields(raws: Seq<RawFieldView>) -> Result<
    (Seq<FieldView>, Seq<FieldView>),
    SchemaError,
>
    decreases raws.len(),
{
    if raws.len() == 0 {
        Ok((Seq::empty(), Seq::empty()))
    } else {
        match spec_partition_fields(raws.take(raws.len() - 1)) {
            Ok((req, opt)) => match spec_process_field(raws.last()) {
                Ok(f) => if f.attrs.default is Some {
                    Ok((req, opt.push(f)))
                } else {
                    Ok((req.push(f), opt))
                },
                Err(e) => Err(e),
            },
            Err(e) => Err(e),
        }
    }
}

/// The record model: name, visibility, generic parameters, and the two
/// canonical field partitions.
pub struct StructInput {
    pub vis: bool,
    pub ident: String,
    pub generics: GenericsDef,
    pub required_fields: Vec<Field>,
    pub optional_fields: Vec<Field>,
}

impl StructInput {
    /// The two partitions are sorted, and together they fit in a machine
    /// word.
    pub open spec fn wf(self) -> bool {
        &&& fields_sorted(self.required_fields.deep_view())
        &&& fields_sorted(self.optional_fields.deep_view())
        &&& forall|i: int|
            0 <= i < self.required_fields.deep_view().len() ==> (
            #[trigger] self.required_fields.deep_view()[i]).attrs.default is None
        &&& forall|i: int|
            0 <= i < self.optional_fields.deep_view().len() ==> (
            #[trigger] self.optional_fields.deep_view()[i]).attrs.default is Some
        &&& self.required_fields@.len() + self.optional_fields@.len() <= usize::MAX
    }

    /// Folds and partitions a record's raw fields: required and optional
    /// fields are separated and each partition is sorted by identifier.
    /// The first schema error aborts the whole record.
    pub fn new(
        vis: bool,
        ident: String,
        generics: GenericsDef,
        fields: Vec<RawField>,
    ) -> (r: Result<StructInput, SchemaError>)
        ensures
            match r {
                Ok(input) => {
                    &&& input.wf()
                    &&& input.vis == vis
                    &&& input.ident@ == ident@
                    &&& input.generics@ == generics@
                    &&& match spec_partition_fields(fields.deep_view()) {
                        Ok((req, opt)) => {
                            &&& input.required_fields.deep_view().to_multiset()
                                == req.to_multiset()
                            &&& input.optional_fields.deep_view().to_multiset()
                                == opt.to_multiset()
                        },
                        Err(_) => false,
                    }
                },
                Err(e) => spec_partition_fields(fields.deep_view()) == Err::<
                    (Seq<FieldView>, Seq<FieldView>),
                    SchemaError,
                >(e),
            },
    {
        let ghost fv = fields.deep_view();
        let mut required: Vec<Field> = Vec::new();
        let mut optional: Vec<Field> = Vec::new();
        let mut i: usize = 0;
        proof {
            broadcast use vstd::seq_lib::group_to_multiset_ensures;

            assert(fv.take(0) =~= Seq::<RawFieldView>::empty());
            assert(required.deep_view() =~= Seq::<FieldView>::empty());
            assert(optional.deep_view() =~= Seq::<FieldView>::empty());
        }
        while i < fields.len()
            invariant
                i <= fields.len(),
                fv == fields.deep_view(),
                fv.len() == fields@.len(),
                spec_partition_fields(fv.take(i as int)) == Ok::<
                    (Seq<FieldView>, Seq<FieldView>),
                    SchemaError,
                >((required.deep_view(), optional.deep_view())),
                forall|k: int|
                    0 <= k < required.deep_view().len() ==> (
                    #[trigger] required.deep_view()[k]).attrs.default is None,
                forall|k: int|
                    0 <= k < optional.deep_view().len() ==> (
                    #[trigger] optional.deep_view()[k]).attrs.default is Some,
                required@.len() + optional@.len() == i,
            decreases fields.len() - i,
        {
            assert(fv[i as int] == fields@[i as int]@);
            let raw = &fields[i];
            let attrs = match FieldAttributes::from_attrs(&raw.attrs) {
                Ok(a) => a,
                Err(e) => {
                    proof {
                        lemma_partition_extends_error(fv, i as int);
                    }
                    return Err(e);
                },
            };
            let is_public = matches!(attrs.vis, FieldVisibility::Public);
            let has_default = attrs.default.is_some();
            let f = Field {
                vis: raw.vis || is_public,
                ident: raw.ident.clone(),
                ty: crate::tokens::clone_tokens(&raw.ty),
                attrs,
            };
            assert(Ok::<FieldView, SchemaError>(f@) == spec_process_field(fv[i as int]));
            proof {
                assert(fv.take(i + 1).take(i as int) =~= fv.take(i as int));
                assert(fv.take(i + 1).last() == fv[i as int]);
            }
            let ghost old_req = required.deep_view();
            let ghost old_opt = optional.deep_view();
            if has_default {
                optional.push(f);
                assert(optional.deep_view() =~= old_opt.push(f@));
            } else {
                required.push(f);
                assert(required.deep_view() =~= old_req.push(f@));
            }
            i += 1;
        }
        proof {
            assert(fv.take(fv.len() as int) =~= fv);
        }
        let ghost req_dv = required.deep_view();
        let ghost opt_dv = optional.deep_view();
        let required_sorted = sort_fields(required);
        let optional_sorted = sort_fields(optional);
        proof {
            broadcast use vstd::seq_lib::group_to_multiset_ensures;

            let rs = required_sorted.deep_view();
            let os = optional_sorted.deep_view();
            assert forall|k: int| 0 <= k < rs.len() implies (#[trigger] rs[k]).attrs.default
                is None by {
                assert(rs.contains(rs[k]));
                assert(req_dv.to_multiset().count(rs[k]) > 0);
                assert(req_dv.contains(rs[k]));
                let m = choose|m: int| 0 <= m < req_dv.len() && req_dv[m] == rs[k];
                assert(req_dv[m].attrs.default is None);
            }
            assert forall|k: int| 0 <= k < os.len() implies (#[trigger] os[k]).attrs.default
                is Some by {
                assert(os.contains(os[k]));
                assert(opt_dv.to_multiset().count(os[k]) > 0);
                assert(opt_dv.contains(os[k]));
                let m = choose|m: int| 0 <= m < opt_dv.len() && opt_dv[m] == os[k];
                assert(opt_dv[m].attrs.default is Some);
            }
        }
        Ok(
            StructInput {
                vis,
                ident,
                generics,
                required_fields: required_sorted,
                optional_fields: optional_sorted,
            },
        )
    }

    /// The number of fields, required and optional together.
    pub fn num_fields(&self) -> (r: usize)
        requires
            self.wf(),
        ensures
            r == self.required_fields@.len() + self.optional_fields@.len(),
    {
        self.required_fields.len() + self.optional_fields.len()
    }

    /// The name of the companion builder type.
    pub fn builder_name(&self) -> (r: String)
        ensures
            r@ == crate::names::spec_builder_name(self.ident@),
    {
        crate::names::builder_name_of(&self.ident)
    }

    /// The extra lifetime under which the builder stores deferred
    /// producers.
    pub fn fn_lifetime(&self) -> (r: String)
        ensures
            r@ == "'fn_lifetime"@,
    {
        String::from_str("'fn_lifetime")
    }

    /// The names of the record's lifetime parameters, without their
    /// bounds, in declaration order.
    pub fn lifetimes(&self) -> (r: Vec<String>)
        ensures
            r.deep_view() == spec_lifetime_names(self.generics@.params),
    {
        let ghost pv = self.generics@.params;
        let mut r: Vec<String> = Vec::new();
        let mut i: usize = 0;
        proof {
            assert(pv.take(0) =~= Seq::<GenericParamDefView>::empty());
            assert(r.deep_view() =~= Seq::<Seq<char>>::empty());
        }
        while i < self.generics.params.len()
            invariant
                i <= self.generics.params.len(),
                pv == self.generics@.params,
                pv.len() == self.generics.params@.len(),
                r.deep_view() == spec_lifetime_names(pv.take(i as int)),
            decreases self.generics.params.len() - i,
        {
            assert(pv[i as int] == self.generics.params@[i as int]@);
            proof {
                assert(pv.take(i + 1).drop_last() =~= pv.take(i as int));
                assert(pv.take(i + 1).last() == pv[i as int]);
            }
            match &self.generics.params[i] {
                GenericParamDef::Lifetime(l) => {
                    r.push(l.name.clone());
                    assert(r.deep_view() =~= spec_lifetime_names(pv.take(i as int)).push(
                        l.name@,
                    ));
                },
                _ => {},
            }
            i += 1;
        }
        proof {
            assert(pv.take(pv.len() as int) =~= pv);
        }
        r
    }

    /// The numbered generic parameters standing for the type-state
    /// slots: one per field, in slot order.
    pub fn all_generics(&self) -> (r: Vec<String>)
        requires
            self.wf(),
        ensures
            r.deep_view().len() == self.required_fields@.len() + self.optional_fields@.len(),
            forall|j: int|
                0 <= j < r.deep_view().len() ==> r.deep_view()[j] == spec_slot_param_name(
                    (j + 1) as nat,
                ),
    {
        let n = self.num_fields();
        let mut r: Vec<String> = Vec::new();
        let mut i: usize = 0;
        while i < n
            invariant
                i <= n,
                r@.len() == i,
                forall|j: int| 0 <= j < i ==> r@[j]@ == spec_slot_param_name((j + 1) as nat),
            decreases n - i,
        {
            let name = slot_param_name(i + 1);
            r.push(name);
            i += 1;
        }
        assert(forall|j: int| 0 <= j < r@.len() ==> r.deep_view()[j] == r@[j]@);
        r
    }
}

/// The names of the lifetime parameters among `params`, in order.
pub open spec fn spec_lifetime_names(params: Seq<GenericParamDefView>) -> Seq<Seq<char>>
    decreases params.len(),
{
    if params.len() == 0 {
        Seq::empty()
    } else {
        let rest = spec_lifetime_names(params.drop_last());
        match params.last() {
            GenericParamDefView::Lifetime(l) => rest.push(l.name),
            _ => rest,
        }
    }
}

proof fn lemma_partition_extends_error(fv: Seq<RawFieldView>, i: int)
    requires
        0 <= i < fv.len(),
        spec_partition_fields(fv.take(i)) is Ok,
        spec_process_field(fv[i]) is Err,
    ensures
        spec_partition_fields(fv) == Err::<(Seq<FieldView>, Seq<FieldView>), SchemaError>(
            spec_process_field(fv[i])->Err_0,
        ),
    decreases fv.len(),
{
    if fv.len() == 0 {
    } else if i == fv.len() - 1 {
        assert(fv.take(fv.len() - 1) =~= fv.take(i));
    } else {
        assert(fv.take(fv.len() - 1).take(i) =~= fv.take(i));
        assert(fv.take(fv.len() - 1)[i] == fv[i]);
        lemma_partition_extends_error(fv.take(fv.len() - 1), i);
    }
}

proof fn lemma_multiset_members(s: Seq<FieldView>)
    ensures
        forall|x: FieldView| s.to_multiset().count(x) > 0 ==> s.contains(x),
{
    broadcast use vstd::seq_lib::group_to_multiset_ensures;

}

/// The rendering of the record's type and const parameters for a type
/// position: one identifier per kept parameter, each followed by a comma.
/// Lifetimes are left out. A type parameter listed in `replace` is
/// omitted when `omit` is set, and otherwise renamed to its underscored
/// variant.
pub open spec fn spec_tokenize_types(
    params: Seq<GenericParamDefView>,
    replace: Seq<Seq<char>>,
    omit: bool,
) -> Seq<TokView>
    decreases params.len(),
{
    if params.len() == 0 {
        Seq::empty()
    } else {
        let rest = spec_tokenize_types(params.skip(1), replace, omit);
        let head: Seq<TokView> = match params[0] {
            GenericParamDefView::Lifetime(_) => Seq::empty(),
            GenericParamDefView::Type(tp) => if replace.contains(tp.ident) {
                if omit {
                    Seq::empty()
                } else {
                    seq![TokView::Ident(tp.ident + "_"@), TokView::Other(","@)]
                }
            } else {
                seq![TokView::Ident(tp.ident), TokView::Other(","@)]
            },
            GenericParamDefView::Const(cp) => seq![TokView::Ident(cp.ident), TokView::Other(","@)],
        };
        head + rest
    }
}

impl StructInput {
    /// Renders the record's type and const parameters for a type
    /// position, leaving lifetimes out: type parameters listed in
    /// `replace` are omitted when `omit_replaced` is set and renamed to
    /// their underscored variants otherwise.
    pub fn tokenize_types(&self, replace: &Vec<String>, omit_replaced: bool) -> (r: Vec<Tok>)
        ensures
            r.deep_view() == spec_tokenize_types(
                self.generics@.params,
                replace.deep_view(),
                omit_replaced,
            ),
    {
        let ghost pv = self.generics@.params;
        let ghost rv = replace.deep_view();
        let ghost goal = spec_tokenize_types(pv, rv, omit_replaced);
        let mut r: Vec<Tok> = Vec::new();
        let mut i: usize = 0;
        proof {
            assert(pv.skip(0) =~= pv);
            assert(r.deep_view() =~= Seq::<TokView>::empty());
        }
        while i < self.generics.params.len()
            invariant
                i <= self.generics.params.len(),
                pv == self.generics@.params,
                rv == replace.deep_view(),
                goal == spec_tokenize_types(pv, rv, omit_replaced),
                pv.len() == self.generics.params@.len(),
                goal == r.deep_view() + spec_tokenize_types(pv.skip(i as int), rv, omit_replaced),
            decreases self.generics.params.len() - i,
        {
            assert(pv[i as int] == self.generics.params@[i as int]@);
            assert(pv.skip(i as int)[0] == pv[i as int]);
            let ghost pre = r.deep_view();
            match &self.generics.params[i] {
                GenericParamDef::Lifetime(_) => {
                    assert(r.deep_view() =~= pre + Seq::<TokView>::empty());
                },
                GenericParamDef::Type(tp) => {
                    if crate::tokens::contains_string(replace, &tp.ident) {
                        if !omit_replaced {
                            r.push(Tok::Ident(crate::tokens::ident_add_underscore(&tp.ident)));
                            r.push(Tok::Other(String::from_str(",")));
                            assert(r.deep_view() =~= pre + seq![
                                TokView::Ident(tp.ident@ + "_"@),
                                TokView::Other(","@),
                            ]);
                        } else {
                            assert(r.deep_view() =~= pre + Seq::<TokView>::empty());
                        }
                    } else {
                        r.push(Tok::Ident(tp.ident.clone()));
                        r.push(Tok::Other(String::from_str(",")));
                        assert(r.deep_view() =~= pre + seq![
                            TokView::Ident(tp.ident@),
                            TokView::Other(","@),
                        ]);
                    }
                },
                GenericParamDef::Const(cp) => {
                    r.push(Tok::Ident(cp.ident.clone()));
                    r.push(Tok::Other(String::from_str(",")));
                    assert(r.deep_view() =~= pre + seq![
                        TokView::Ident(cp.ident@),
                        TokView::Other(","@),
                    ]);
                },
            }
            proof {
                assert(pv.skip(i as int).skip(1) =~= pv.skip(i + 1));
            }
            i += 1;
        }
        proof {
            assert(pv.skip(pv.len() as int) =~= Seq::<GenericParamDefView>::empty());
            assert(goal =~= r.deep_view());
        }
        r
    }
}

/// The bounds of a lifetime parameter, rendered: a colon, then the bound
/// lifetimes separated by plus signs; nothing when there is no bound.
pub open spec fn spec_lifetime_bounds(bounds: Seq<Seq<char>>) -> Seq<TokView> {
    if bounds.len() == 0 {
        Seq::empty()
    } else {
        seq![TokView::Other(":"@)] + spec_plus_separated(bounds)
    }
}

/// Lifetime names separated by plus signs.
pub open spec fn spec_plus_separated(bounds: Seq<Seq<char>>) -> Seq<TokView>
    decreases bounds.len(),
{
    if bounds.len() == 0 {
        Seq::empty()
    } else if bounds.len() == 1 {
        seq![TokView::Other(bounds[0])]
    } else {
        seq![TokView::Other(bounds[0]), TokView::Other("+"@)] + spec_plus_separated(bounds.skip(1))
    }
}

/// The rendering of one generic parameter for an `impl` header: the
/// parameter with its bounds, followed by a comma. A type parameter
/// listed in `filter_out` is dropped.
pub open spec fn spec_impl_entry(p: GenericParamDefView, filter_out: Seq<Seq<char>>) -> Seq<
    TokView,
> {
    match p {
        GenericParamDefView::Lifetime(l) => seq![TokView::Other(l.name)] + spec_lifetime_bounds(
            l.bounds,
        ) + seq![TokView::Other(","@)],
        GenericParamDefView::Type(tp) => if filter_out.contains(tp.ident) {
            Seq::empty()
        } else {
            seq![TokView::Ident(tp.ident)] + (if tp.bounds.len() > 0 {
                seq![TokView::Other(":"@)] + tp.bounds
            } else {
                Seq::empty()
            }) + seq![TokView::Other(","@)]
        },
        GenericParamDefView::Const(cp) => seq![
            TokView::Other("const"@),
            TokView::Ident(cp.ident),
            TokView::Other(":"@),
        ] + cp.ty + seq![TokView::Other(","@)],
    }
}

/// Whether every parameter is a lifetime or a filtered-out type
/// parameter, so that an `impl` header would have nothing to declare.
pub open spec fn spec_all_filtered(params: Seq<GenericParamDefView>, filter_out: Seq<Seq<char>>) -> bool {
    forall|i: int|
        0 <= i < params.len() ==> match #[trigger] params[i] {
            GenericParamDefView::Lifetime(_) => true,
            GenericParamDefView::Type(tp) => filter_out.contains(tp.ident),
            GenericParamDefView::Const(_) => false,
        }
}

/// The rendering of the record's generic parameters for an `impl`
/// header: every parameter with its bounds in declaration order, each
/// followed by a comma; empty when nothing is left to declare.
pub open spec fn spec_tokenize_impl(
    params: Seq<GenericParamDefView>,
    filter_out: Seq<Seq<char>>,
) -> Seq<TokView> {
    if spec_all_filtered(params, filter_out) {
        Seq::empty()
    } else {
        spec_impl_entries(params, filter_out)
    }
}

/// The concatenation of the `impl`-header entries of `params`.
pub open spec fn spec_impl_entries(
    params: Seq<GenericParamDefView>,
    filter_out: Seq<Seq<char>>,
) -> Seq<TokView>
    decreases params.len(),
{
    if params.len() == 0 {
        Seq::empty()
    } else {
        spec_impl_entry(params[0], filter_out) + spec_impl_entries(params.skip(1), filter_out)
    }
}

/// Renders one `impl`-header entry.
fn impl_entry(p: &GenericParamDef, filter_out: &Vec<String>) -> (r: Vec<Tok>)
    ensures
        r.deep_view() == spec_impl_entry(p@, filter_out.deep_view()),
{
    let mut r: Vec<Tok> = Vec::new();
    match p {
        GenericParamDef::Lifetime(l) => {
            r.push(Tok::Other(l.name.clone()));
            if l.bounds.len() > 0 {
                r.push(Tok::Other(String::from_str(":")));
                let ghost bv = l.bounds.deep_view();
                let ghost base = r.deep_view();
                let mut k: usize = 0;
                proof {
                    assert(bv.skip(0) =~= bv);
                }
                while k < l.bounds.len()
                    invariant
                        k <= l.bounds.len(),
                        k < l.bounds.len() || l.bounds.len() == k,
                        bv == l.bounds.deep_view(),
                        bv.len() == l.bounds@.len(),
                        bv.len() > 0,
                        base + spec_plus_separated(bv) == r.deep_view() + (if k < bv.len() {
                            spec_plus_separated(bv.skip(k as int))
                        } else {
                            Seq::<TokView>::empty()
                        }),
                    decreases l.bounds.len() - k,
                {
                    assert(bv[k as int] == l.bounds@[k as int]@);
                    assert(bv.skip(k as int)[0] == bv[k as int]);
                    let ghost pre = r.deep_view();
                    r.push(Tok::Other(l.bounds[k].clone()));
                    if k + 1 < l.bounds.len() {
                        r.push(Tok::Other(String::from_str("+")));
                        assert(r.deep_view() =~= pre + seq![
                            TokView::Other(bv[k as int]),
                            TokView::Other("+"@),
                        ]);
                        assert(bv.skip(k as int).skip(1) =~= bv.skip(k + 1));
                    } else {
                        assert(r.deep_view() =~= pre + seq![TokView::Other(bv[k as int])]);
                        assert(bv.skip(k as int).len() == 1);
                    }
                    k += 1;
                }
            }
            let ghost pre = r.deep_view();
            r.push(Tok::Other(String::from_str(",")));
            proof {
                assert(r.deep_view() =~= pre + seq![TokView::Other(","@)]);
                assert(r.deep_view() =~= spec_impl_entry(p@, filter_out.deep_view()));
            }
        },
        GenericParamDef::Type(tp) => {
            if !crate::tokens::contains_string(filter_out, &tp.ident) {
                r.push(Tok::Ident(tp.ident.clone()));
                if tp.bounds.len() > 0 {
                    r.push(Tok::Other(String::from_str(":")));
                    let ghost pre = r.deep_view();
                    crate::tokens::extend_tokens(&mut r, &tp.bounds);
                }
                let ghost pre = r.deep_view();
                r.push(Tok::Other(String::from_str(",")));
                proof {
                    assert(r.deep_view() =~= pre + seq![TokView::Other(","@)]);
                    assert(r.deep_view() =~= spec_impl_entry(p@, filter_out.deep_view()));
                }
            } else {
                assert(r.deep_view() =~= spec_impl_entry(p@, filter_out.deep_view()));
            }
        },
        GenericParamDef::Const(cp) => {
            r.push(Tok::Other(String::from_str("const")));
            r.push(Tok::Ident(cp.ident.clone()));
            r.push(Tok::Other(String::from_str(":")));
            let ghost pre = r.deep_view();
            crate::tokens::extend_tokens(&mut r, &cp.ty);
            let ghost mid = r.deep_view();
            r.push(Tok::Other(String::from_str(",")));
            proof {
                assert(pre =~= seq![
                    TokView::Other("const"@),
                    TokView::Ident(cp.ident@),
                    TokView::Other(":"@),
                ]);
                assert(r.deep_view() =~= mid + seq![TokView::Other(","@)]);
                assert(r.deep_view() =~= spec_impl_entry(p@, filter_out.deep_view()));
            }
        },
    }
    r
}

impl StructInput {
    /// Renders the record's generic parameters for an `impl` header:
    /// lifetimes and their bounds, the type parameters not filtered out
    /// with their bounds, and the const parameters, each entry followed
    /// by a comma. When nothing but lifetimes and filtered-out type
    /// parameters is declared, the header is empty.
    pub fn tokenize_impl(&self, filter_out: &Vec<String>) -> (r: Vec<Tok>)
        ensures
            r.deep_view() == spec_tokenize_impl(self.generics@.params, filter_out.deep_view()),
    {
        let ghost pv = self.generics@.params;
        let ghost fv = filter_out.deep_view();
        let mut all_filtered = true;
        let mut i: usize = 0;
        while i < self.generics.params.len()
            invariant
                i <= self.generics.params.len(),
                pv == self.generics@.params,
                fv == filter_out.deep_view(),
                pv.len() == self.generics.params@.len(),
                all_filtered == spec_all_filtered(pv.take(i as int), fv),
            decreases self.generics.params.len() - i,
        {
            assert(pv[i as int] == self.generics.params@[i as int]@);
            let this_filtered = match &self.generics.params[i] {
                GenericParamDef::Lifetime(_) => true,
                GenericParamDef::Type(tp) => crate::tokens::contains_string(filter_out, &tp.ident),
                GenericParamDef::Const(_) => false,
            };
            proof {
                assert(forall|j: int| 0 <= j < i ==> pv.take(i + 1)[j] == pv.take(i as int)[j]);
                assert(pv.take(i + 1)[i as int] == pv[i as int]);
                if !(all_filtered && this_filtered) {
                    if !this_filtered {
                        assert(!spec_all_filtered(pv.take(i + 1), fv));
                    } else {
                        let w = choose|w: int|
                            0 <= w < i && !(match #[trigger] pv.take(i as int)[w] {
                                GenericParamDefView::Lifetime(_) => true,
                                GenericParamDefView::Type(tp) => fv.contains(tp.ident),
                                GenericParamDefView::Const(_) => false,
                            });
                        assert(!spec_all_filtered(pv.take(i + 1), fv));
                    }
                }
            }
            all_filtered = all_filtered && this_filtered;
            i += 1;
        }
        proof {
            assert(pv.take(pv.len() as int) =~= pv);
        }
        if all_filtered {
            let r: Vec<Tok> = Vec::new();
            assert(r.deep_view() =~= Seq::<TokView>::empty());
            return r;
        }
        let ghost goal = spec_impl_entries(pv, fv);
        let mut r: Vec<Tok> = Vec::new();
        let mut k: usize = 0;
        proof {
            assert(pv.skip(0) =~= pv);
            assert(r.deep_view() =~= Seq::<TokView>::empty());
        }
        while k < self.generics.params.len()
            invariant
                k <= self.generics.params.len(),
                pv == self.generics@.params,
                fv == filter_out.deep_view(),
                pv.len() == self.generics.params@.len(),
                goal == spec_impl_entries(pv, fv),
                goal == r.deep_view() + spec_impl_entries(pv.skip(k as int), fv),
            decreases self.generics.params.len() - k,
        {
            assert(pv[k as int] == self.generics.params@[k as int]@);
            assert(pv.skip(k as int)[0] == pv[k as int]);
            let entry = impl_entry(&self.generics.params[k], filter_out);
            crate::tokens::extend_tokens(&mut r, &entry);
            proof {
                assert(pv.skip(k as int).skip(1) =~= pv.skip(k + 1));
            }
            k += 1;
        }
        proof {
            assert(pv.skip(pv.len() as int) =~= Seq::<GenericParamDefView>::empty());
            assert(r.deep_view() =~= goal);
        }
        r
    }
}

/// The rendering of one `where` predicate for a setter: a predicate
/// whose bounded type is a single identifier is restated for the
/// underscored variant of that identifier; any other predicate is
/// dropped.
pub open spec fn spec_where_entry(p: WherePredicateDefView) -> Seq<TokView> {
    if p.bounded.len() == 1 && p.bounded[0] is Ident {
        seq![TokView::Ident(tok_ident_text(p.bounded[0]) + "_"@), TokView::Other(":"@)] + p.bounds
            + seq![TokView::Other(","@)]
    } else {
        Seq::empty()
    }
}

/// The text of an identifier token.
pub open spec fn tok_ident_text(t: TokView) -> Seq<char> {
    match t {
        TokView::Ident(s) => s,
        TokView::Other(s) => s,
    }
}

/// The concatenation of the setter `where` entries of `preds`.
pub open spec fn spec_where_entries(preds: Seq<WherePredicateDefView>) -> Seq<TokView>
    decreases preds.len(),
{
    if preds.len() == 0 {
        Seq::empty()
    } else {
        spec_where_entry(preds[0]) + spec_where_entries(preds.skip(1))
    }
}

/// The `where` clause of a setter that re-instantiates the parameters
/// listed in `replace`: empty when nothing is replaced, and otherwise the
/// record's single-identifier predicates restated for the underscored
/// parameter variants.
pub open spec fn spec_setter_where_clause(
    preds: Seq<WherePredicateDefView>,
    replace: Seq<Seq<char>>,
) -> Seq<TokView> {
    if replace.len() == 0 {
        Seq::empty()
    } else {
        seq![TokView::Other("where"@)] + spec_where_entries(preds)
    }
}

impl StructInput {
    /// Renders the `where` clause under which a setter re-instantiates
    /// the generic parameters listed in `replace`.
    pub fn setter_where_clause(&self, replace: &Vec<String>) -> (r: Vec<Tok>)
        ensures
            r.deep_view() == spec_setter_where_clause(
                self.generics@.where_predicates,
                replace.deep_view(),
            ),
    {
        let ghost wv = self.generics@.where_predicates;
        let mut r: Vec<Tok> = Vec::new();
        if replace.len() == 0 {
            assert(r.deep_view() =~= Seq::<TokView>::empty());
            return r;
        }
        r.push(Tok::Other(String::from_str("where")));
        let ghost goal = seq![TokView::Other("where"@)] + spec_where_entries(wv);
        let mut i: usize = 0;
        proof {
            assert(wv.skip(0) =~= wv);
            assert(r.deep_view() =~= seq![TokView::Other("where"@)]);
        }
        while i < self.generics.where_predicates.len()
            invariant
                i <= self.generics.where_predicates.len(),
                wv == self.generics@.where_predicates,
                wv.len() == self.generics.where_predicates@.len(),
                goal == seq![TokView::Other("where"@)] + spec_where_entries(wv),
                goal == r.deep_view() + spec_where_entries(wv.skip(i as int)),
            decreases self.generics.where_predicates.len() - i,
        {
            assert(wv[i as int] == self.generics.where_predicates@[i as int]@);
            assert(wv.skip(i as int)[0] == wv[i as int]);
            let pred = &self.generics.where_predicates[i];
            let ghost pre = r.deep_view();
            if pred.bounded.len() == 1 {
                assert(pred.bounded.deep_view()[0] == pred.bounded@[0]@);
                match &pred.bounded[0] {
                    Tok::Ident(name) => {
                        r.push(Tok::Ident(crate::tokens::ident_add_underscore(name)));
                        r.push(Tok::Other(String::from_str(":")));
                        let ghost mid = r.deep_view();
                        assert(mid =~= pre + seq![
                            TokView::Ident(name@ + "_"@),
                            TokView::Other(":"@),
                        ]);
                        crate::tokens::extend_tokens(&mut r, &pred.bounds);
                        let ghost mid2 = r.deep_view();
                        r.push(Tok::Other(String::from_str(",")));
                        assert(r.deep_view() =~= mid2 + seq![TokView::Other(","@)]);
                        assert(r.deep_view() =~= pre + spec_where_entry(wv[i as int]));
                    },
                    Tok::Other(_) => {
                        assert(r.deep_view() =~= pre + spec_where_entry(wv[i as int]));
                    },
                }
            } else {
                assert(r.deep_view() =~= pre + spec_where_entry(wv[i as int]));
            }
            proof {
                assert(wv.skip(i as int).skip(1) =~= wv.skip(i + 1));
            }
            i += 1;
        }
        proof {
            assert(wv.skip(wv.len() as int) =~= Seq::<WherePredicateDefView>::empty());
            assert(r.deep_view() =~= goal);
        }
        r
    }
}

} // verus!
