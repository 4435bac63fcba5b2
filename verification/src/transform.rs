//! The whole transformation: designation parsing, field extraction,
//! declaration rewriting and accessor synthesis, in strict order, with
//! every failure aborting before any output is produced.
//!
//! The assembly step — everything past the path check — is exact for
//! every value the remote reference may take; the top-level contract is
//! relational about which designation is returned or blamed, since the
//! path parser's verdict is not modelled.

use vstd::prelude::*;
use crate::annotation::designations_are_strings;
use crate::annotation::has_designation;
use crate::annotation::has_malformed_designation;
use crate::annotation::has_string_designation;
use crate::annotation::last_designation_at;
use crate::annotation::last_designation_is;
use crate::annotation::designated_string;
use crate::annotation::designates_at;
use crate::annotation::parse_remote_reference;
use crate::decl::body_fields;
use crate::decl::OutputUnit;
use crate::decl::OutputUnitV;
use crate::decl::RecordDecl;
use crate::decl::RecordDeclV;
use crate::decl::TransformError;
use crate::decl::TransformErrorV;
use crate::extract::descriptors_of;
use crate::extract::extract_fields;
use crate::rewriter::rewrite;
use crate::rewriter::rewrite_spec;
use crate::synth::synth_spec;
use crate::synth::synthesize;

verus! {

/// The output unit built for a named-member declaration around a given
/// remote reference: the rewritten declaration plus one accessor per
/// member, in declaration order.
pub open spec fn output_unit_spec(d: RecordDeclV, remote: Seq<char>) -> OutputUnitV
    recommends
        d.body is Named,
{
    OutputUnitV {
        decl: rewrite_spec(d),
        accessors: synth_spec(d.name, d.generics, remote, descriptors_of(body_fields(d))),
    }
}

/// What assembly yields once a remote reference is in hand: the output
/// unit for a named-member declaration, the unsupported-shape rejection
/// for every other shape.
pub open spec fn assemble_spec(d: RecordDeclV, remote: Seq<char>) -> Result<
    OutputUnitV,
    TransformErrorV,
> {
    if d.body is Named {
        Ok(output_unit_spec(d, remote))
    } else {
        Err(TransformErrorV::UnsupportedShape)
    }
}

/// Assembles the output unit for a declaration around an
/// already-validated remote reference.  This step is exact for every
/// value the reference may take.
pub fn transform_with_remote(decl: RecordDecl, remote: String) -> (r: Result<
    OutputUnit,
    TransformError,
>)
    ensures
        (match r {
            Ok(u) => assemble_spec(decl.deep_view(), remote@) == Ok::<
                OutputUnitV,
                TransformErrorV,
            >(u.deep_view()),
            Err(e) => assemble_spec(decl.deep_view(), remote@) == Err::<
                OutputUnitV,
                TransformErrorV,
            >(e.deep_view()),
        }),
{
    let ghost d0 = decl.deep_view();
    let fields = match extract_fields(&decl) {
        Ok(f) => f,
        Err(e) => {
            return Err(e);
        },
    };
    let accessors = synthesize(&decl.name, &decl.generics, &remote, &fields);
    proof {
        assert(decl.body is Named);
        assert(fields.deep_view() == descriptors_of(body_fields(d0)));
    }
    let rewritten = rewrite(decl);
    Ok(OutputUnit { decl: rewritten, accessors })
}

/// What a successful transformation is: the declaration has named
/// members, every designation on it is a string literal, and the output
/// unit is assembled around the last designation's string.
pub open spec fn transform_ok(d: RecordDeclV, u: OutputUnitV) -> bool {
    &&& d.body is Named
    &&& designations_are_strings(d.attrs)
    &&& exists|s: Seq<char>| #[trigger] last_designation_is(d.attrs, s) && u == output_unit_spec(
        d,
        s,
    )
}

/// Which rejections are consistent with a declaration: the
/// missing-designation error exactly when no designation exists; the
/// malformed-value error only when some designation is not a string
/// literal; the unparsable-path error only when some designation's
/// string was handed to the path parser; the unsupported-shape error
/// only past a fully parsed designation, on a member list that is not
/// the flat named shape.
pub open spec fn transform_err(d: RecordDeclV, e: TransformErrorV) -> bool {
    match e {
        TransformErrorV::MissingRemoteDesignation => !has_designation(d.attrs),
        TransformErrorV::MalformedRemoteValue => has_malformed_designation(d.attrs),
        TransformErrorV::UnparsableRemotePath(_) => has_string_designation(d.attrs),
        TransformErrorV::UnsupportedShape => designations_are_strings(d.attrs) && has_designation(
            d.attrs,
        ) && !(d.body is Named),
    }
}

/// Transforms an annotated record declaration into its output unit: the
/// declaration rewritten with one getter annotation per member, plus one
/// accessor per member against the designated remote type.  Rejects a
/// declaration without a valid remote-type designation and one whose
/// member list is not the flat named shape; a declaration with no
/// designation at all is always rejected as missing it.
pub fn remote_converter(decl: RecordDecl) -> (r: Result<OutputUnit, TransformError>)
    ensures
        (match r {
            Ok(u) => transform_ok(decl.deep_view(), u.deep_view()),
            Err(e) => transform_err(decl.deep_view(), e.deep_view()),
        }),
        !has_designation(decl.deep_view().attrs) ==> r == Err::<OutputUnit, TransformError>(
            TransformError::MissingRemoteDesignation,
        ),
{
    let ghost d0 = decl.deep_view();
    let remote = match parse_remote_reference(&decl) {
        Ok(s) => s,
        Err(e) => {
            return Err(e);
        },
    };
    proof {
        let (i0, j0) = choose|i: int, j: int|
            #[trigger] last_designation_at(d0.attrs, i, j) && designated_string(d0.attrs, i, j)
                == Some(remote@);
        assert(designates_at(d0.attrs, i0, j0));
        assert(has_designation(d0.attrs));
    }
    match transform_with_remote(decl, remote) {
        Ok(u) => {
            proof {
                assert(d0.body is Named);
                assert(transform_ok(d0, u.deep_view()));
            }
            Ok(u)
        },
        Err(e) => {
            proof {
                assert(e.deep_view() == TransformErrorV::UnsupportedShape);
                assert(transform_err(d0, e.deep_view()));
            }
            Err(e)
        },
    }
}

} // verus!
