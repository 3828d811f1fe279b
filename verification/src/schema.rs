//! The schema model.
//!
//! A record's builder is generated from a declarative description of its
//! fields. Each field carries a set of attributes: an optional default
//! rule (immediate or deferred), a validator, the permitted evaluation
//! modes of its setters, a visibility override, inference markers for the
//! record's generic parameters, and a late-binding marker for defaults
//! whose type is only known once the generic parameters are resolved.
//! Attribute lists are folded into a [`FieldAttributes`] value; a
//! malformed combination is a fatal [`SchemaError`].

use vstd::prelude::*;

use crate::tokens::clone_strings;
use crate::tokens::clone_tokens;
use crate::tokens::Tok;
use crate::tokens::TokView;

verus! {

/// The visibility of the setters generated for one field.
#[derive(Clone, Copy, PartialEq, Eq, Structural, Debug)]
pub enum FieldVisibility {
    /// The setter is forced public.
    Public,
    /// No setter is generated at all.
    Hidden,
    /// The setter inherits the field's own visibility.
    Default,
}

/// The set of evaluation modes a field's setters may use.
#[derive(Clone, Copy, PartialEq, Eq, Structural, Debug)]
pub struct Setters {
    /// An immediate value may be supplied.
    pub value: bool,
    /// A deferred zero-argument producer may be supplied.
    pub lazy: bool,
    /// An asynchronous deferred producer may be supplied.
    pub asynchronous: bool,
}

impl Setters {
    /// The default mode set: immediate values only.
    pub fn value_only() -> (r: Setters)
        ensures
            r == (Setters { value: true, lazy: false, asynchronous: false }),
    {
        Setters { value: true, lazy: false, asynchronous: false }
    }

    /// No mode at all.
    pub fn empty() -> (r: Setters)
        ensures
            r == (Setters { value: false, lazy: false, asynchronous: false }),
    {
        Setters { value: false, lazy: false, asynchronous: false }
    }

    /// Whether a deferred or asynchronous mode is permitted.
    pub open spec fn spec_lazy_or_async(self) -> bool {
        self.lazy || self.asynchronous
    }

    /// Whether a synchronous mode is permitted.
    pub open spec fn spec_value_or_lazy(self) -> bool {
        self.value || self.lazy
    }
}

/// How a missing optional field obtains its value.
pub enum DefaultRule {
    /// An expression evaluated when the builder is created.
    Immediate(Vec<Tok>),
    /// A zero-argument producer invoked at construction time.
    Lazy(Vec<Tok>),
}

/// The mathematical value of a [`DefaultRule`].
pub enum DefaultRuleView {
    Immediate(Seq<TokView>),
    Lazy(Seq<TokView>),
}

impl View for DefaultRule {
    type V = DefaultRuleView;

    open spec fn view(&self) -> DefaultRuleView {
        match self {
            DefaultRule::Immediate(e) => DefaultRuleView::Immediate(e.deep_view()),
            DefaultRule::Lazy(e) => DefaultRuleView::Lazy(e.deep_view()),
        }
    }
}

impl DeepView for DefaultRule {
    type V = DefaultRuleView;

    open spec fn deep_view(&self) -> DefaultRuleView {
        self.view()
    }
}

/// One surface-parsed attribute of a field.
pub enum Attr {
    /// `default = <expr>`: an immediate default.
    Default(Vec<Tok>),
    /// `default_lazy = <expr>`: a deferred default.
    DefaultLazy(Vec<Tok>),
    /// An asynchronous default: recognised, and rejected.
    DefaultAsync(Vec<Tok>),
    /// Suppress the field's setters.
    Hidden,
    /// Force the setters public.
    Public,
    /// Accept anything convertible into the field's type.
    Into,
    /// A fallible transform applied to every supplied value.
    Validator(Vec<Tok>),
    /// One line of documentation.
    Doc(String),
    /// The explicit allow-list of evaluation modes.
    Setter(Setters),
    /// The field's setter resolves the listed generic parameters.
    Infer(Vec<String>),
    /// The field's type mentions the listed inferable parameters without
    /// resolving them itself.
    UseInferred(Vec<String>),
    /// Defer default evaluation until the generic parameters are known.
    LateBoundDefault,
}

/// The mathematical value of an [`Attr`].
pub enum AttrView {
    Default(Seq<TokView>),
    DefaultLazy(Seq<TokView>),
    DefaultAsync(Seq<TokView>),
    Hidden,
    Public,
    Into,
    Validator(Seq<TokView>),
    Doc(Seq<char>),
    Setter(Setters),
    Infer(Seq<Seq<char>>),
    UseInferred(Seq<Seq<char>>),
    LateBoundDefault,
}

impl View for Attr {
    type V = AttrView;

    open spec fn view(&self) -> AttrView {
        match self {
            Attr::Default(e) => AttrView::Default(e.deep_view()),
            Attr::DefaultLazy(e) => AttrView::DefaultLazy(e.deep_view()),
            Attr::DefaultAsync(e) => AttrView::DefaultAsync(e.deep_view()),
            Attr::Hidden => AttrView::Hidden,
            Attr::Public => AttrView::Public,
            Attr::Into => AttrView::Into,
            Attr::Validator(e) => AttrView::Validator(e.deep_view()),
            Attr::Doc(s) => AttrView::Doc(s@),
            Attr::Setter(s) => AttrView::Setter(*s),
            Attr::Infer(ps) => AttrView::Infer(ps.deep_view()),
            Attr::UseInferred(ps) => AttrView::UseInferred(ps.deep_view()),
            Attr::LateBoundDefault => AttrView::LateBoundDefault,
        }
    }
}

impl DeepView for Attr {
    type V = AttrView;

    open spec fn deep_view(&self) -> AttrView {
        self.view()
    }
}

/// A fatal schema error: generation aborts for the whole record.
#[derive(Clone, Copy, PartialEq, Eq, Structural, Debug)]
pub enum SchemaError {
    /// Two default rules were declared on one field.
    DuplicatedDefault,
    /// An asynchronous default rule is not supported.
    AsyncDefaultUnsupported,
    /// `hidden` was declared twice, or together with another override.
    DuplicatedHidden,
    /// `public` was declared twice, or together with another override.
    DuplicatedPublic,
    /// A hidden field has no default rule to fall back on.
    HiddenWithoutDefault,
}

/// The folded attributes of one field.
pub struct FieldAttributes {
    pub default: Option<DefaultRule>,
    pub use_into: bool,
    pub validator: Option<Vec<Tok>>,
    pub documents: Vec<String>,
    pub setters: Setters,
    pub vis: FieldVisibility,
    pub late_bound_default: bool,
    pub use_inferred: Vec<String>,
    pub infer: Vec<String>,
}

/// The mathematical value of a [`FieldAttributes`].
pub struct FieldAttributesView {
    pub default: Option<DefaultRuleView>,
    pub use_into: bool,
    pub validator: Option<Seq<TokView>>,
    pub documents: Seq<Seq<char>>,
    pub setters: Setters,
    pub vis: FieldVisibility,
    pub late_bound_default: bool,
    pub use_inferred: Seq<Seq<char>>,
    pub infer: Seq<Seq<char>>,
}

impl View for FieldAttributes {
    type V = FieldAttributesView;

    open spec fn view(&self) -> FieldAttributesView {
        FieldAttributesView {
            default: match self.default {
                Some(ref d) => Some(d@),
                None => None,
            },
            use_into: self.use_into,
            validator: match self.validator {
                Some(ref v) => Some(v.deep_view()),
                None => None,
            },
            documents: self.documents.deep_view(),
            setters: self.setters,
            vis: self.vis,
            late_bound_default: self.late_bound_default,
            use_inferred: self.use_inferred.deep_view(),
            infer: self.infer.deep_view(),
        }
    }
}

impl DeepView for FieldAttributes {
    type V = FieldAttributesView;

    open spec fn deep_view(&self) -> FieldAttributesView {
        self.view()
    }
}

/// The attributes of a field that carries none.
pub open spec fn spec_empty_attributes() -> FieldAttributesView {
    FieldAttributesView {
        default: None,
        use_into: false,
        validator: None,
        documents: Seq::empty(),
        setters: Setters { value: true, lazy: false, asynchronous: false },
        vis: FieldVisibility::Default,
        late_bound_default: false,
        use_inferred: Seq::empty(),
        infer: Seq::empty(),
    }
}

impl Default for FieldAttributes {
    /// No default rule, no validator, inherited visibility, immediate
    /// values only.
    fn default() -> (r: FieldAttributes)
        ensures
            r@ == spec_empty_attributes(),
    {
        let r = FieldAttributes {
            default: None,
            use_into: false,
            validator: None,
            documents: Vec::new(),
            setters: Setters::value_only(),
            vis: FieldVisibility::Default,
            late_bound_default: false,
            use_inferred: Vec::new(),
            infer: Vec::new(),
        };
        proof {
            assert(r@.documents =~= spec_empty_attributes().documents);
            assert(r@.use_inferred =~= spec_empty_attributes().use_inferred);
            assert(r@.infer =~= spec_empty_attributes().infer);
        }
        r
    }
}

/// One step of the attribute fold: the state after taking `attr` into
/// account, or the schema error it raises. Documentation lines are
/// collected separately.
pub open spec fn spec_apply_attr(a: FieldAttributesView, attr: AttrView) -> Result<
    FieldAttributesView,
    SchemaError,
> {
    match attr {
        AttrView::Default(e) => if a.default is Some {
            Err(SchemaError::DuplicatedDefault)
        } else {
            Ok(FieldAttributesView { default: Some(DefaultRuleView::Immediate(e)), ..a })
        },
        AttrView::DefaultLazy(e) => if a.default is Some {
            Err(SchemaError::DuplicatedDefault)
        } else {
            Ok(FieldAttributesView { default: Some(DefaultRuleView::Lazy(e)), ..a })
        },
        AttrView::DefaultAsync(_) => if a.default is Some {
            Err(SchemaError::DuplicatedDefault)
        } else {
            Err(SchemaError::AsyncDefaultUnsupported)
        },
        AttrView::Hidden => if a.vis != FieldVisibility::Default {
            Err(SchemaError::DuplicatedHidden)
        } else {
            Ok(
                FieldAttributesView {
                    vis: FieldVisibility::Hidden,
                    late_bound_default: true,
                    ..a
                },
            )
        },
        AttrView::Public => if a.vis != FieldVisibility::Default {
            Err(SchemaError::DuplicatedPublic)
        } else {
            Ok(FieldAttributesView { vis: FieldVisibility::Public, ..a })
        },
        AttrView::Into => Ok(FieldAttributesView { use_into: true, ..a }),
        AttrView::Validator(v) => Ok(FieldAttributesView { validator: Some(v), ..a }),
        AttrView::Doc(_) => Ok(a),
        AttrView::Setter(s) => Ok(FieldAttributesView { setters: s, ..a }),
        AttrView::Infer(ps) => Ok(FieldAttributesView { infer: ps, ..a }),
        AttrView::UseInferred(ps) => Ok(FieldAttributesView { use_inferred: ps, ..a }),
        AttrView::LateBoundDefault => Ok(FieldAttributesView { late_bound_default: true, ..a }),
    }
}

/// The attribute fold, starting from `a`: the first schema error aborts
/// it.
pub open spec fn spec_fold_attrs(a: FieldAttributesView, attrs: Seq<AttrView>) -> Result<
    FieldAttributesView,
    SchemaError,
>
    decreases attrs.len(),
{
    if attrs.len() == 0 {
        Ok(a)
    } else {
        match spec_apply_attr(a, attrs[0]) {
            Ok(next) => spec_fold_attrs(next, attrs.skip(1)),
            Err(e) => Err(e),
        }
    }
}

/// The documentation lines among `attrs`, in order.
pub open spec fn spec_docs(attrs: Seq<AttrView>) -> Seq<Seq<char>>
    decreases attrs.len(),
{
    if attrs.len() == 0 {
        Seq::empty()
    } else {
        let rest = spec_docs(attrs.skip(1));
        match attrs[0] {
            AttrView::Doc(s) => seq![s] + rest,
            _ => rest,
        }
    }
}

/// The final check on a folded attribute set: a hidden field must have a
/// default rule.
pub open spec fn spec_validate(a: FieldAttributesView) -> Result<FieldAttributesView, SchemaError> {
    if a.vis == FieldVisibility::Hidden && a.default is None {
        Err(SchemaError::HiddenWithoutDefault)
    } else {
        Ok(a)
    }
}

/// The attributes a field's attribute list folds to: the fold from the
/// empty attribute set, its documentation lines collected, checked by
/// [`spec_validate`].
pub open spec fn spec_field_attributes(attrs: Seq<AttrView>) -> Result<
    FieldAttributesView,
    SchemaError,
> {
    match spec_fold_attrs(spec_empty_attributes(), attrs) {
        Ok(a) => spec_validate(FieldAttributesView { documents: spec_docs(attrs), ..a }),
        Err(e) => Err(e),
    }
}

impl FieldAttributes {
    /// Folds a field's attribute list, raising the first schema error:
    /// a second default rule, an asynchronous default, a repeated
    /// visibility override, or a hidden field without a default.
    pub fn from_attrs(attrs: &Vec<Attr>) -> (r: Result<FieldAttributes, SchemaError>)
        ensures
            match r {
                Ok(a) => spec_field_attributes(attrs.deep_view()) == Ok::<
                    FieldAttributesView,
                    SchemaError,
                >(a@),
                Err(e) => spec_field_attributes(attrs.deep_view()) == Err::<
                    FieldAttributesView,
                    SchemaError,
                >(e),
            },
    {
        let ghost av = attrs.deep_view();
        let mut acc = FieldAttributes::default();
        let mut docs: Vec<String> = Vec::new();
        let mut i: usize = 0;
        proof {
            assert(av.skip(0) =~= av);
            assert(acc@.documents =~= Seq::<Seq<char>>::empty());
        }
        while i < attrs.len()
            invariant
                i <= attrs.len(),
                av == attrs.deep_view(),
                av.len() == attrs@.len(),
                spec_fold_attrs(spec_empty_attributes(), av) == spec_fold_attrs(
                    acc@,
                    av.skip(i as int),
                ),
                spec_docs(av) == docs.deep_view() + spec_docs(av.skip(i as int)),
                acc@.documents == Seq::<Seq<char>>::empty(),
            decreases attrs.len() - i,
        {
            assert(av[i as int] == attrs@[i as int]@);
            assert(av.skip(i as int)[0] == av[i as int]);
            let ghost pre = acc@;
            match &attrs[i] {
                Attr::Default(e) => {
                    if acc.default.is_some() {
                        return Err(SchemaError::DuplicatedDefault);
                    }
                    acc.default = Some(DefaultRule::Immediate(clone_tokens(e)));
                },
                Attr::DefaultLazy(e) => {
                    if acc.default.is_some() {
                        return Err(SchemaError::DuplicatedDefault);
                    }
                    acc.default = Some(DefaultRule::Lazy(clone_tokens(e)));
                },
                Attr::DefaultAsync(_) => {
                    if acc.default.is_some() {
                        return Err(SchemaError::DuplicatedDefault);
                    }
                    return Err(SchemaError::AsyncDefaultUnsupported);
                },
                Attr::Hidden => {
                    if !matches!(acc.vis, FieldVisibility::Default) {
                        return Err(SchemaError::DuplicatedHidden);
                    }
                    acc.vis = FieldVisibility::Hidden;
                    acc.late_bound_default = true;
                },
                Attr::Public => {
                    if !matches!(acc.vis, FieldVisibility::Default) {
                        return Err(SchemaError::DuplicatedPublic);
                    }
                    acc.vis = FieldVisibility::Public;
                },
                Attr::Into => {
                    acc.use_into = true;
                },
                Attr::Validator(v) => {
                    acc.validator = Some(clone_tokens(v));
                },
                Attr::Doc(s) => {
                    docs.push(s.clone());
                },
                Attr::Setter(s) => {
                    acc.setters = *s;
                },
                Attr::Infer(ps) => {
                    acc.infer = clone_strings(ps);
                },
                Attr::UseInferred(ps) => {
                    acc.use_inferred = clone_strings(ps);
                },
                Attr::LateBoundDefault => {
                    acc.late_bound_default = true;
                },
            }
            proof {
                assert(spec_apply_attr(pre, av[i as int]) == Ok::<FieldAttributesView, SchemaError>(
                    acc@,
                ));
                assert(av.skip(i as int).skip(1) =~= av.skip(i + 1));
                assert(spec_docs(av) =~= docs.deep_view() + spec_docs(av.skip(i + 1)));
            }
            i += 1;
        }
        proof {
            assert(av.skip(av.len() as int) =~= Seq::<AttrView>::empty());
        }
        if matches!(acc.vis, FieldVisibility::Hidden) && acc.default.is_none() {
            return Err(SchemaError::HiddenWithoutDefault);
        }
        acc.documents = docs;
        Ok(acc)
    }
}

/// One field of the record: its own visibility, its name, its declared
/// type, and its folded attributes.
pub struct Field {
    pub vis: bool,
    pub ident: String,
    pub ty: Vec<Tok>,
    pub attrs: FieldAttributes,
}

/// The mathematical value of a [`Field`]. The `vis` flag records whether
/// the field itself is public.
pub struct FieldView {
    pub vis: bool,
    pub ident: Seq<char>,
    pub ty: Seq<TokView>,
    pub attrs: FieldAttributesView,
}

impl View for Field {
    type V = FieldView;

    open spec fn view(&self) -> FieldView {
        FieldView {
            vis: self.vis,
            ident: self.ident@,
            ty: self.ty.deep_view(),
            attrs: self.attrs@,
        }
    }
}

impl DeepView for Field {
    type V = FieldView;

    open spec fn deep_view(&self) -> FieldView {
        self.view()
    }
}

impl Field {
    /// Whether the field is optional: it has a default rule to fall back
    /// on.
    pub open spec fn spec_is_optional(self) -> bool {
        self@.attrs.default is Some
    }

    /// The documentation lines attached to the field.
    pub fn documents(&self) -> (r: Vec<String>)
        ensures
            r.deep_view() == self@.attrs.documents,
    {
        let r = clone_strings(&self.attrs.documents);
        r
    }
}

} // verus!
