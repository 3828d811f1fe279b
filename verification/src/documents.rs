//! Documentation synthesis.
//!
//! Every generated method carries documentation assembled from the
//! field's own doc lines plus a synthesized summary of its type and
//! default; the `new` function lists all fields, required first.

use vstd::prelude::*;

use crate::schema::DefaultRuleView;
use crate::schema::Field;
use crate::schema::FieldView;
use crate::struct_input::StructInput;
use crate::tokens::join_space;
use crate::tokens::spec_join_space;

verus! {

/// The type summary of a field: its type's text, wrapped in `Into<...>`
/// when the setter converts.
pub open spec fn spec_type_documents(f: FieldView) -> Seq<char> {
    if f.attrs.use_into {
        "Into<"@ + spec_join_space(f.ty) + ">"@
    } else {
        spec_join_space(f.ty)
    }
}

/// The default summary appended to a setter's doc line: empty without a
/// default rule.
pub open spec fn spec_default_documents(f: FieldView) -> Seq<char> {
    match f.attrs.default {
        Some(DefaultRuleView::Immediate(e)) => "\n - Default: `"@ + spec_join_space(e) + "`"@,
        Some(DefaultRuleView::Lazy(e)) => "\n - Default: `"@ + spec_join_space(e) + "`"@,
        None => Seq::empty(),
    }
}

/// The synthesized first doc line of a setter.
pub open spec fn spec_setter_doc(f: FieldView) -> Seq<char> {
    " # "@ + f.ident + "\n - Type: `"@ + spec_type_documents(f) + "`"@ + spec_default_documents(f)
        + "\n\n"@
}

impl Field {
    /// Renders the field's type summary.
    pub fn type_documents(&self) -> (r: String)
        ensures
            r@ == spec_type_documents(self@),
    {
        let joined = join_space(&self.ty);
        if self.attrs.use_into {
            let r = String::from_str("Into<").concat(joined.as_str()).concat(">");
            proof {
                assert(r@ =~= spec_type_documents(self@));
            }
            r
        } else {
            joined
        }
    }

    /// The documentation of one setter: the synthesized summary line,
    /// then the field's own doc lines.
    pub fn setter_documents(&self) -> (r: Vec<String>)
        ensures
            r.deep_view() == seq![spec_setter_doc(self@)] + self@.attrs.documents,
    {
        let tdocs = self.type_documents();
        let mut line = String::from_str(" # ");
        line.append(self.ident.as_str());
        line.append("\n - Type: `");
        line.append(tdocs.as_str());
        line.append("`");
        match &self.attrs.default {
            Some(d) => {
                let e = match d {
                    crate::schema::DefaultRule::Immediate(e) => e,
                    crate::schema::DefaultRule::Lazy(e) => e,
                };
                let joined = join_space(e);
                line.append("\n - Default: `");
                line.append(joined.as_str());
                line.append("`");
            },
            None => {},
        }
        line.append("\n\n");
        proof {
            assert(line@ =~= spec_setter_doc(self@));
        }
        let mut r: Vec<String> = Vec::new();
        r.push(line);
        let ghost base = r.deep_view();
        let mut i: usize = 0;
        proof {
            assert(base =~= seq![spec_setter_doc(self@)]);
        }
        while i < self.attrs.documents.len()
            invariant
                i <= self.attrs.documents@.len(),
                base == seq![spec_setter_doc(self@)],
                r@.len() == 1 + i,
                r@[0]@ == spec_setter_doc(self@),
                forall|j: int| 0 <= j < i ==> r@[1 + j]@ == self@.attrs.documents[j],
            decreases self.attrs.documents@.len() - i,
        {
            assert(self.attrs.documents.deep_view()[i as int] == self.attrs.documents@[i as int]@);
            r.push(self.attrs.documents[i].clone());
            i += 1;
        }
        proof {
            assert(forall|j: int| 0 <= j < r@.len() ==> r.deep_view()[j] == r@[j]@);
            assert(r.deep_view() =~= seq![spec_setter_doc(self@)] + self@.attrs.documents);
        }
        r
    }
}

/// The synthesized field entry in the documentation of `new`: the
/// field's name and type, and, for an optional field, its default
/// expression.
pub open spec fn spec_new_doc_entry(f: FieldView) -> Seq<Seq<char>> {
    seq![
        " ### `"@ + f.ident + "`\n - Type: `"@ + spec_type_documents(f) + "`"@
            + spec_default_documents(f) + "\n\n"@,
    ] + f.attrs.documents
}

/// The field entries of a partition, in order.
pub open spec fn spec_new_doc_entries(fields: Seq<FieldView>) -> Seq<Seq<char>>
    decreases fields.len(),
{
    if fields.len() == 0 {
        Seq::empty()
    } else {
        spec_new_doc_entry(fields[0]) + spec_new_doc_entries(fields.skip(1))
    }
}

/// The documentation of `new`: a heading, then the required fields,
/// then the optional ones, each under its own section when present.
pub open spec fn spec_new_documents(input: StructInput) -> Seq<Seq<char>> {
    let req = input.required_fields.deep_view();
    let opt = input.optional_fields.deep_view();
    seq![" Creating a builder."@] + (if req.len() > 0 {
        seq![" ## Required Fields"@] + spec_new_doc_entries(req)
    } else {
        Seq::empty()
    }) + (if opt.len() > 0 {
        seq![" ## Optional Fields"@] + spec_new_doc_entries(opt)
    } else {
        Seq::empty()
    })
}

/// Renders the field entry of one field for the documentation of `new`.
fn new_doc_entry(f: &Field) -> (r: Vec<String>)
    ensures
        r.deep_view() == spec_new_doc_entry(f@),
{
    let tdocs = f.type_documents();
    let mut line = String::from_str(" ### `");
    line.append(f.ident.as_str());
    line.append("`\n - Type: `");
    line.append(tdocs.as_str());
    line.append("`");
    match &f.attrs.default {
        Some(d) => {
            let e = match d {
                crate::schema::DefaultRule::Immediate(e) => e,
                crate::schema::DefaultRule::Lazy(e) => e,
            };
            let joined = join_space(e);
            line.append("\n - Default: `");
            line.append(joined.as_str());
            line.append("`");
        },
        None => {},
    }
    line.append("\n\n");
    proof {
        assert(line@ =~= spec_new_doc_entry(f@)[0]);
    }
    let mut r: Vec<String> = Vec::new();
    r.push(line);
    let mut i: usize = 0;
    while i < f.attrs.documents.len()
        invariant
            i <= f.attrs.documents@.len(),
            r@.len() == 1 + i,
            r@[0]@ == spec_new_doc_entry(f@)[0],
            forall|j: int| 0 <= j < i ==> r@[1 + j]@ == f@.attrs.documents[j],
        decreases f.attrs.documents@.len() - i,
    {
        assert(f.attrs.documents.deep_view()[i as int] == f.attrs.documents@[i as int]@);
        r.push(f.attrs.documents[i].clone());
        i += 1;
    }
    proof {
        assert(forall|j: int| 0 <= j < r@.len() ==> r.deep_view()[j] == r@[j]@);
        assert(r.deep_view() =~= spec_new_doc_entry(f@));
    }
    r
}

/// Appends the copied lines of `src` to `dst`.
fn extend_lines(dst: &mut Vec<String>, src: Vec<String>)
    ensures
        final(dst).deep_view() == old(dst).deep_view() + src.deep_view(),
{
    let ghost sv = src.deep_view();
    let ghost base = old(dst).deep_view();
    let mut rest = src;
    while rest.len() > 0
        invariant
            rest@.len() <= sv.len(),
            forall|j: int|
                0 <= j < rest@.len() ==> rest@[j]@ == sv[sv.len() - rest@.len() + j],
            dst@.len() == base.len() + sv.len() - rest@.len(),
            forall|j: int| 0 <= j < base.len() ==> dst@[j]@ == base[j],
            forall|j: int|
                0 <= j < sv.len() - rest@.len() ==> dst@[base.len() + j]@ == sv[j],
        decreases rest@.len(),
    {
        let ghost pre = rest@;
        let line = rest.remove(0);
        proof {
            assert(line == pre[0]);
            assert(forall|j: int| 0 <= j < pre.len() - 1 ==> pre.remove(0)[j] == pre[j + 1]);
        }
        dst.push(line);
    }
    proof {
        assert(final(dst).deep_view() =~= base + sv);
    }
}

fn partition_doc_entries(fields: &Vec<Field>, dst: &mut Vec<String>)
    ensures
        final(dst).deep_view() == old(dst).deep_view() + spec_new_doc_entries(fields.deep_view()),
{
    let ghost fv = fields.deep_view();
    let ghost base = old(dst).deep_view();
    let mut i: usize = 0;
    proof {
        assert(fv.skip(0) =~= fv);
    }
    while i < fields.len()
        invariant
            i <= fields@.len(),
            fv == fields.deep_view(),
            fv.len() == fields@.len(),
            base + spec_new_doc_entries(fv) == dst.deep_view() + spec_new_doc_entries(
                fv.skip(i as int),
            ),
        decreases fields@.len() - i,
    {
        assert(fv[i as int] == fields@[i as int]@);
        assert(fv.skip(i as int)[0] == fv[i as int]);
        let entry = new_doc_entry(&fields[i]);
        extend_lines(dst, entry);
        proof {
            assert(fv.skip(i as int).skip(1) =~= fv.skip(i + 1));
        }
        i += 1;
    }
    proof {
        assert(fv.skip(fv.len() as int) =~= Seq::<FieldView>::empty());
        assert(final(dst).deep_view() =~= base + spec_new_doc_entries(fv));
    }
}

impl StructInput {
    /// The documentation of the generated `new` function.
    pub fn new_documents(&self) -> (r: Vec<String>)
        ensures
            r.deep_view() == spec_new_documents(*self),
    {
        let ghost req = self.required_fields.deep_view();
        let ghost opt = self.optional_fields.deep_view();
        let mut r: Vec<String> = Vec::new();
        r.push(String::from_str(" Creating a builder."));
        proof {
            assert(r.deep_view() =~= seq![" Creating a builder."@]);
        }
        if self.required_fields.len() > 0 {
            let ghost a = r.deep_view();
            r.push(String::from_str(" ## Required Fields"));
            proof {
                assert(r.deep_view() =~= a.push(" ## Required Fields"@));
            }
            partition_doc_entries(&self.required_fields, &mut r);
            proof {
                assert(r.deep_view() =~= seq![" Creating a builder."@] + (seq![
                    " ## Required Fields"@,
                ] + spec_new_doc_entries(req)));
            }
        }
        let ghost mid = r.deep_view();
        proof {
            assert(mid =~= seq![" Creating a builder."@] + (if req.len() > 0 {
                seq![" ## Required Fields"@] + spec_new_doc_entries(req)
            } else {
                Seq::<Seq<char>>::empty()
            }));
        }
        if self.optional_fields.len() > 0 {
            let ghost a = r.deep_view();
            r.push(String::from_str(" ## Optional Fields"));
            proof {
                assert(r.deep_view() =~= a.push(" ## Optional Fields"@));
            }
            partition_doc_entries(&self.optional_fields, &mut r);
            proof {
                assert(r.deep_view() =~= mid + (seq![" ## Optional Fields"@]
                    + spec_new_doc_entries(opt)));
            }
        }
        proof {
            assert(r.deep_view() =~= spec_new_documents(*self));
        }
        r
    }
}

} // verus!
