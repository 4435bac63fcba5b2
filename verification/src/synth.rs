//! The accessor synthesizer: one generated function per extracted
//! member, each taking a reference to the remote type — instantiated
//! with the declaration's own generic parameters — and returning a
//! reference to the member's value type.

use vstd::prelude::*;
use crate::decl::Accessor;
use crate::decl::AccessorV;
use crate::decl::FieldDescriptor;
use crate::decl::FieldDescriptorV;

verus! {

/// The synthesized accessors: for each descriptor, a function named
/// after the field, owned by `owner`, generic over `generics`, from a
/// reference to `remote` to a reference to the field's value type, in
/// declaration order.
pub open spec fn synth_spec(
    owner: Seq<char>,
    generics: Seq<Seq<char>>,
    remote: Seq<char>,
    fields: Seq<FieldDescriptorV>,
) -> Seq<AccessorV> {
    Seq::new(
        fields.len(),
        |i: int| AccessorV {
            owner: owner,
            name: fields[i].name,
            generics: generics,
            remote: remote,
            ret_ty: fields[i].ty,
        },
    )
}

/// The comma-separated text of a generic-parameter list.
pub open spec fn generics_list_text(gs: Seq<Seq<char>>) -> Seq<char>
    decreases gs.len(),
{
    if gs.len() == 0 {
        Seq::empty()
    } else if gs.len() == 1 {
        gs[0]
    } else {
        generics_list_text(gs.drop_last()) + ", "@ + gs[gs.len() - 1]
    }
}

/// The generic-parameter clause of a signature: empty when there are no
/// parameters, else the comma-separated list in angle brackets.
pub open spec fn generics_clause_text(gs: Seq<Seq<char>>) -> Seq<char> {
    if gs.len() == 0 {
        Seq::empty()
    } else {
        "<"@ + generics_list_text(gs) + ">"@
    }
}

/// The textual signature of one generated accessor: a function named
/// after the field, generic over the declaration's parameters, from a
/// reference to the remote type to a reference to the field's value
/// type.
pub open spec fn signature_of(a: AccessorV) -> Seq<char> {
    "fn "@ + a.name + generics_clause_text(a.generics) + "(i: &"@ + a.remote + ") -> &"@
        + a.ret_ty
}

/// The textual body of one generated accessor: reinterpret the remote
/// reference as a reference to the rewritten local type, project the
/// member named after the accessor out of it, and return a reference to
/// it.
pub open spec fn body_text_of(a: AccessorV) -> Seq<char> {
    "&unsafe { std::mem::transmute::<_, &Self>(i) }."@ + a.name
}

impl Accessor {
    /// Renders the signature of the generated function as source text.
    pub fn signature(&self) -> (r: String)
        ensures
            r@ == signature_of(self.deep_view()),
    {
        let ghost gs = self.generics.deep_view();
        let mut s = String::from_str("fn ");
        s.append(self.name.as_str());
        if self.generics.len() > 0 {
            s.append("<");
            let mut i: usize = 0;
            while i < self.generics.len()
                invariant
                    i <= self.generics.len(),
                    gs == self.generics.deep_view(),
                    gs.len() == self.generics.len(),
                    i == 0 ==> s@ == "fn "@ + self.name@ + "<"@,
                    i >= 1 ==> s@ == "fn "@ + self.name@ + "<"@ + generics_list_text(
                        gs.take(i as int),
                    ),
                decreases self.generics.len() - i,
            {
                let ghost s_pre = s@;
                if i > 0 {
                    s.append(", ");
                }
                s.append(self.generics[i].as_str());
                proof {
                    assert(gs[i as int] == self.generics@[i as int]@);
                    if i == 0 {
                        assert(generics_list_text(gs.take(1)) == gs.take(1)[0]);
                        assert(s@ =~= "fn "@ + self.name@ + "<"@ + generics_list_text(
                            gs.take(1),
                        ));
                    } else {
                        assert(gs.take(i as int + 1).drop_last() =~= gs.take(i as int));
                        assert(gs.take(i as int + 1)[i as int] == gs[i as int]);
                        assert(generics_list_text(gs.take(i as int + 1)) == generics_list_text(
                            gs.take(i as int),
                        ) + ", "@ + gs[i as int]);
                        assert(s@ =~= "fn "@ + self.name@ + "<"@ + generics_list_text(
                            gs.take(i as int + 1),
                        ));
                    }
                }
                i += 1;
            }
            proof {
                assert(gs.take(gs.len() as int) =~= gs);
            }
            s.append(">");
        }
        s.append("(i: &");
        s.append(self.remote.as_str());
        s.append(") -> &");
        s.append(self.ret_ty.as_str());
        proof {
            assert(s@ =~= signature_of(self.deep_view()));
        }
        s
    }

    /// Renders the body of the generated function.  The reinterpretation
    /// it spells out performs no check that the remote type's layout
    /// matches the local declaration's: that guarantee rests with the
    /// caller who designated the remote type.
    pub fn body_text(&self) -> (r: String)
        ensures
            r@ == body_text_of(self.deep_view()),
    {
        let mut s = String::from_str("&unsafe { std::mem::transmute::<_, &Self>(i) }.");
        s.append(self.name.as_str());
        s
    }
}

/// Copies a generic-parameter list.
fn clone_strings(v: &Vec<String>) -> (r: Vec<String>)
    ensures
        r.deep_view() == v.deep_view(),
{
    let mut out: Vec<String> = Vec::new();
    let mut i: usize = 0;
    while i < v.len()
        invariant
            i <= v.len(),
            out.len() == i,
            forall|j: int| 0 <= j < i ==> (#[trigger] out@[j])@ == v@[j]@,
        decreases v.len() - i,
    {
        out.push(v[i].clone());
        i += 1;
    }
    proof {
        assert forall|j: int| 0 <= j < out.deep_view().len() implies out.deep_view()[j]
            == v.deep_view()[j] by {
            assert(out@[j]@ == v@[j]@);
        }
        assert(out.deep_view() =~= v.deep_view());
    }
    out
}

/// Synthesizes one accessor per extracted member, in declaration order.
pub fn synthesize(
    struct_name: &String,
    generics: &Vec<String>,
    remote: &String,
    fields: &Vec<FieldDescriptor>,
) -> (r: Vec<Accessor>)
    ensures
        r.deep_view() == synth_spec(
            struct_name@,
            generics.deep_view(),
            remote@,
            fields.deep_view(),
        ),
{
    let mut out: Vec<Accessor> = Vec::new();
    let mut i: usize = 0;
    while i < fields.len()
        invariant
            i <= fields.len(),
            out.len() == i,
            forall|j: int|
                0 <= j < i ==> (#[trigger] out@[j].deep_view()) == (AccessorV {
                    owner: struct_name@,
                    name: fields@[j].name@,
                    generics: generics.deep_view(),
                    remote: remote@,
                    ret_ty: fields@[j].ty@,
                }),
        decreases fields.len() - i,
    {
        let f = &fields[i];
        out.push(
            Accessor {
                owner: struct_name.clone(),
                name: f.name.clone(),
                generics: clone_strings(generics),
                remote: remote.clone(),
                ret_ty: f.ty.clone(),
            },
        );
        i += 1;
    }
    proof {
        assert forall|j: int| 0 <= j < out.deep_view().len() implies out.deep_view()[j]
            == synth_spec(struct_name@, generics.deep_view(), remote@, fields.deep_view())[j] by {
            assert(out@[j].deep_view() == AccessorV {
                owner: struct_name@,
                name: fields@[j].name@,
                generics: generics.deep_view(),
                remote: remote@,
                ret_ty: fields@[j].ty@,
            });
            assert(fields.deep_view()[j] == fields@[j].deep_view());
        }
        assert(out.deep_view() =~= synth_spec(
            struct_name@,
            generics.deep_view(),
            remote@,
            fields.deep_view(),
        ));
    }
    out
}

} // verus!
