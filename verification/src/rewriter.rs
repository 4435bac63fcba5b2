//! The declaration rewriter: produces a copy of the record declaration in
//! which every named member carries a generated getter-reference
//! annotation pointing at the accessor synthesized for it.

use vstd::prelude::*;
use crate::decl::Attr;
use crate::decl::AttrV;
use crate::decl::AttrValue;
use crate::decl::AttrValueV;
use crate::decl::Body;
use crate::decl::BodyV;
use crate::decl::Delim;
use crate::decl::Field;
use crate::decl::FieldV;
use crate::decl::MetaItem;
use crate::decl::MetaItemV;
use crate::decl::RecordDecl;
use crate::decl::RecordDeclV;

verus! {

/// The getter-reference annotation attached to a member named `name`: a
/// parenthesized `serde` list holding `getter = "Self::name"`.
pub open spec fn getter_attr(name: Seq<char>) -> AttrV {
    AttrV::List {
        name: "serde"@,
        delim: Delim::Paren,
        items: seq![
            MetaItemV { key: "getter"@, value: Some(AttrValueV::Str("Self::"@ + name)) },
        ],
    }
}

/// A member with its getter-reference annotation appended after the
/// annotations it already carries; name and value type are unchanged.
pub open spec fn rewrite_field(f: FieldV) -> FieldV {
    FieldV { name: f.name, ty: f.ty, attrs: f.attrs.push(getter_attr(f.name)) }
}

/// The rewritten declaration: every named member gains its getter
/// annotation; the name, generics, record annotations and member order
/// are carried through unchanged.
pub open spec fn rewrite_spec(d: RecordDeclV) -> RecordDeclV
    recommends
        d.body is Named,
{
    match d.body {
        BodyV::Named(fs) => RecordDeclV {
            name: d.name,
            generics: d.generics,
            attrs: d.attrs,
            body: BodyV::Named(Seq::new(fs.len(), |i: int| rewrite_field(fs[i]))),
        },
        _ => d,
    }
}

/// Builds the getter-reference annotation for the member named `name`.
fn make_getter_attr(name: &String) -> (r: Attr)
    ensures
        r.deep_view() == getter_attr(name@),
{
    let mut getter = String::from_str("Self::");
    getter.append(name.as_str());
    let mut items: Vec<MetaItem> = Vec::new();
    items.push(MetaItem { key: String::from_str("getter"), value: Some(AttrValue::Str(getter)) });
    let r = Attr::List { name: String::from_str("serde"), delim: Delim::Paren, items };
    proof {
        assert(r.deep_view() matches AttrV::List { items: its, .. } && its =~= seq![
            MetaItemV { key: "getter"@, value: Some(AttrValueV::Str("Self::"@ + name@)) },
        ]);
    }
    r
}

/// Rewrites a declaration with named members, attaching a getter
/// annotation to each member and carrying everything else through
/// unchanged.
pub fn rewrite(decl: RecordDecl) -> (r: RecordDecl)
    requires
        decl.body is Named,
    ensures
        r.deep_view() == rewrite_spec(decl.deep_view()),
{
    let ghost d0 = decl.deep_view();
    let RecordDecl { name, generics, attrs, body } = decl;
    match body {
        Body::Named(mut fields) => {
            let ghost fs0 = fields.deep_view();
            let mut out: Vec<Field> = Vec::new();
            while fields.len() > 0
                invariant
                    out.len() + fields.len() == fs0.len(),
                    forall|j: int|
                        0 <= j < fields.len() ==> (#[trigger] fields@[j].deep_view()) == fs0[out.len()
                            + j],
                    forall|j: int|
                        0 <= j < out.len() ==> (#[trigger] out@[j].deep_view()) == rewrite_field(
                            fs0[j],
                        ),
                decreases fields.len(),
            {
                let ghost k = out.len() as int;
                let ghost pre = fields@;
                let mut f = fields.remove(0);
                proof {
                    assert(pre[0].deep_view() == fs0[k]);
                    assert(f.deep_view() == fs0[k]);
                    assert forall|j: int| 0 <= j < fields@.len() implies (#[trigger] fields@[j].deep_view())
                        == fs0[k + 1 + j] by {
                        assert(fields@[j] == pre[j + 1]);
                        assert(pre[j + 1].deep_view() == fs0[k + (j + 1)]);
                    }
                }
                let g = make_getter_attr(&f.name);
                let ghost a_pre = f.attrs.deep_view();
                proof {
                    assert(a_pre == fs0[k].attrs);
                }
                f.attrs.push(g);
                proof {
                    let ghost target = fs0[k].attrs.push(getter_attr(fs0[k].name));
                    assert forall|j: int| 0 <= j < f.attrs.deep_view().len() implies f.attrs.deep_view()[j]
                        == target[j] by {
                        if j < a_pre.len() {
                            assert(f.attrs@[j].deep_view() == a_pre[j]);
                        } else {
                            assert(f.attrs@[j] == g);
                        }
                    }
                    assert(f.attrs.deep_view() =~= target);
                    assert(f.deep_view() == rewrite_field(fs0[k]));
                }
                out.push(f);
            }
            let r = RecordDecl { name, generics, attrs, body: Body::Named(out) };
            proof {
                let ghost target = Seq::new(fs0.len(), |i: int| rewrite_field(fs0[i]));
                assert forall|j: int| 0 <= j < out.deep_view().len() implies out.deep_view()[j]
                    == target[j] by {
                    assert(out@[j].deep_view() == rewrite_field(fs0[j]));
                }
                assert(out.deep_view() =~= target);
                assert(d0.body == BodyV::Named(fs0));
                assert(r.deep_view() == rewrite_spec(d0));
            }
            r
        },
        _ => unreached(),
    }
}

} // verus!
