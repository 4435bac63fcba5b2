//! The guarantees of the transformation, stated and proved over the
//! spec-level model that the executable functions are verified against.

use vstd::prelude::*;
use crate::annotation::designated_string;
use crate::annotation::designates_at;
use crate::annotation::designations_are_strings;
use crate::annotation::has_designation;
use crate::annotation::last_designation_at;
use crate::annotation::last_designation_is;
use crate::annotation::pos_at_most;
use crate::decl::AttrV;
use crate::decl::BodyV;
use crate::decl::FieldV;
use crate::decl::OutputUnitV;
use crate::decl::RecordDeclV;
use crate::decl::TransformErrorV;
use crate::decl::body_fields;
use crate::extract::descriptors_of;
use crate::rewriter::getter_attr;
use crate::rewriter::rewrite_field;
use crate::transform::output_unit_spec;
use crate::transform::transform_err;
use crate::transform::transform_ok;

verus! {

/// Only one string can be the last designation's.
proof fn lemma_last_designation_unique(attrs: Seq<AttrV>, s1: Seq<char>, s2: Seq<char>)
    requires
        last_designation_is(attrs, s1),
        last_designation_is(attrs, s2),
    ensures
        s1 == s2,
{
    let (i1, j1) = choose|i: int, j: int|
        #[trigger] last_designation_at(attrs, i, j) && designated_string(attrs, i, j) == Some(s1);
    let (i2, j2) = choose|i: int, j: int|
        #[trigger] last_designation_at(attrs, i, j) && designated_string(attrs, i, j) == Some(s2);
    assert(designates_at(attrs, i1, j1));
    assert(designates_at(attrs, i2, j2));
    assert(pos_at_most(i1, j1, i2, j2));
    assert(pos_at_most(i2, j2, i1, j1));
    assert(i1 == i2 && j1 == j2);
}

/// The transformation is deterministic on success: two successful
/// transformations of one declaration yield identical output units, so
/// a second pass over the same input reproduces the first's output unit
/// exactly.
pub proof fn lemma_transform_deterministic(d: RecordDeclV, u1: OutputUnitV, u2: OutputUnitV)
    requires
        transform_ok(d, u1),
        transform_ok(d, u2),
    ensures
        u1 == u2,
{
    let s1 = choose|s: Seq<char>|
        #[trigger] last_designation_is(d.attrs, s) && u1 == output_unit_spec(d, s);
    let s2 = choose|s: Seq<char>|
        #[trigger] last_designation_is(d.attrs, s) && u2 == output_unit_spec(d, s);
    lemma_last_designation_unique(d.attrs, s1, s2);
}

/// The generated accessors follow the declaration order of the named
/// members exactly: one accessor per member, named after it, returning
/// its value type.
pub proof fn lemma_field_order(d: RecordDeclV, u: OutputUnitV)
    requires
        transform_ok(d, u),
    ensures
        u.accessors.len() == body_fields(d).len(),
        forall|i: int|
            0 <= i < u.accessors.len() ==> (#[trigger] u.accessors[i]).name == body_fields(d)[i].name
                && u.accessors[i].ret_ty == body_fields(d)[i].ty,
{
    let s = choose|s: Seq<char>|
        #[trigger] last_designation_is(d.attrs, s) && u == output_unit_spec(d, s);
    assert forall|i: int| 0 <= i < u.accessors.len() implies (#[trigger] u.accessors[i]).name
        == body_fields(d)[i].name && u.accessors[i].ret_ty == body_fields(d)[i].ty by {
        assert(descriptors_of(body_fields(d))[i].name == body_fields(d)[i].name);
        assert(descriptors_of(body_fields(d))[i].ty == body_fields(d)[i].ty);
    }
}

/// Every member of the rewritten declaration keeps its name, value type
/// and prior annotations, and gains exactly one getter annotation,
/// appended last, whose value is `Self::` followed by the member's own
/// name; the declaration's name, generics and record annotations are
/// carried through unchanged.
pub proof fn lemma_getter_shape(d: RecordDeclV, u: OutputUnitV)
    requires
        transform_ok(d, u),
    ensures
        u.decl.name == d.name,
        u.decl.generics == d.generics,
        u.decl.attrs == d.attrs,
        body_fields(u.decl).len() == body_fields(d).len(),
        forall|i: int|
            0 <= i < body_fields(u.decl).len() ==> (#[trigger] body_fields(u.decl)[i]) == (FieldV {
                name: body_fields(d)[i].name,
                ty: body_fields(d)[i].ty,
                attrs: body_fields(d)[i].attrs.push(getter_attr(body_fields(d)[i].name)),
            }),
{
    let s = choose|s: Seq<char>|
        #[trigger] last_designation_is(d.attrs, s) && u == output_unit_spec(d, s);
    match d.body {
        BodyV::Named(fs) => {
            assert forall|i: int| 0 <= i < body_fields(u.decl).len() implies (#[trigger] body_fields(
                u.decl,
            )[i]) == (FieldV {
                name: body_fields(d)[i].name,
                ty: body_fields(d)[i].ty,
                attrs: body_fields(d)[i].attrs.push(getter_attr(body_fields(d)[i].name)),
            }) by {
                assert(body_fields(u.decl)[i] == rewrite_field(fs[i]));
            }
        },
        _ => {},
    }
}

/// Every generated accessor is owned by the declaration it was generated
/// for, is generic over exactly the declaration's generic parameters,
/// identically ordered, and its signature references exactly the string
/// of the last designation.
pub proof fn lemma_generic_fidelity(d: RecordDeclV, u: OutputUnitV)
    requires
        transform_ok(d, u),
    ensures
        forall|i: int|
            0 <= i < u.accessors.len() ==> (#[trigger] u.accessors[i]).generics == d.generics
                && u.accessors[i].owner == d.name && last_designation_is(
                d.attrs,
                u.accessors[i].remote,
            ),
{
    let s = choose|s: Seq<char>|
        #[trigger] last_designation_is(d.attrs, s) && u == output_unit_spec(d, s);
    assert forall|i: int| 0 <= i < u.accessors.len() implies (#[trigger] u.accessors[i]).generics
        == d.generics && u.accessors[i].owner == d.name && last_designation_is(
        d.attrs,
        u.accessors[i].remote,
    ) by {
        assert(u.accessors[i].remote == s);
    }
}

/// A declaration without any remote designation admits no successful
/// transformation, and the only rejection consistent with the contract
/// is the missing-designation error.
pub proof fn lemma_missing_designation(d: RecordDeclV)
    requires
        !has_designation(d.attrs),
    ensures
        forall|u: OutputUnitV| !(#[trigger] transform_ok(d, u)),
        forall|e: TransformErrorV| #[trigger] transform_err(d, e)
            ==> e == TransformErrorV::MissingRemoteDesignation,
{
    assert forall|u: OutputUnitV| !(#[trigger] transform_ok(d, u)) by {
        if transform_ok(d, u) {
            let s = choose|s: Seq<char>|
                #[trigger] last_designation_is(d.attrs, s) && u == output_unit_spec(d, s);
            let (i0, j0) = choose|i: int, j: int|
                #[trigger] last_designation_at(d.attrs, i, j) && designated_string(d.attrs, i, j)
                    == Some(s);
            assert(designates_at(d.attrs, i0, j0));
            assert(has_designation(d.attrs));
        }
    }
    assert forall|e: TransformErrorV| #[trigger] transform_err(d, e) implies e
        == TransformErrorV::MissingRemoteDesignation by {
        match e {
            TransformErrorV::MissingRemoteDesignation => {},
            TransformErrorV::MalformedRemoteValue => {
                let (i0, j0) = choose|i: int, j: int|
                    #[trigger] designates_at(d.attrs, i, j) && designated_string(d.attrs, i, j)
                        is None;
                assert(has_designation(d.attrs));
            },
            TransformErrorV::UnparsableRemotePath(_) => {
                let (i0, j0) = choose|i: int, j: int|
                    #[trigger] designates_at(d.attrs, i, j) && designated_string(d.attrs, i, j)
                        is Some;
                assert(has_designation(d.attrs));
            },
            TransformErrorV::UnsupportedShape => {},
        }
    }
}

/// A declaration whose member list is not the flat named shape admits no
/// successful transformation; the unsupported-shape rejection is
/// consistent with the contract exactly when a designation is present
/// and every designation carries a string literal.
pub proof fn lemma_unsupported_shape(d: RecordDeclV)
    requires
        !(d.body is Named),
    ensures
        forall|u: OutputUnitV| !(#[trigger] transform_ok(d, u)),
        transform_err(d, TransformErrorV::UnsupportedShape) <==> (designations_are_strings(d.attrs)
            && has_designation(d.attrs)),
{
    assert forall|u: OutputUnitV| !(#[trigger] transform_ok(d, u)) by {}
}

} // verus!
