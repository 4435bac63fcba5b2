//! The annotation parser: finds the remote-type designation among a
//! declaration's annotations and validates the designated type path.
//!
//! A designation is carried by a marker annotation — a parenthesized
//! argument list named `serde` — in an argument `remote = "..."` whose
//! value is a double-quoted string naming a type path.  Annotations are
//! scanned in declaration order and the last designation wins; a
//! designation whose value is not a string literal, or whose string the
//! path parser rejects, aborts the transformation at once.  What the
//! path parser accepts is not modelled: the contracts state which
//! designation is returned or blamed, never how a given string is
//! judged.

use vstd::prelude::*;
use crate::decl::Attr;
use crate::decl::AttrV;
use crate::decl::AttrValue;
use crate::decl::AttrValueV;
use crate::decl::Delim;
use crate::decl::MetaItemV;
use crate::decl::RecordDecl;
use crate::decl::TransformError;

verus! {

/// Relies on `syn::parse_str::<syn::Path>` to decide whether a string is
/// a well-formed type path, and for the diagnostic when it is not.  The
/// verdict is not modelled: two calls on one string may differ.
#[verifier::external_body]
fn check_type_path(s: &String) -> Result<(), String> {
    match syn::parse_str::<syn::Path>(s.as_str()) {
        Ok(_) => Ok(()),
        Err(e) => Err(format!("{}", e)),
    }
}

/// Whether an annotation is a marker that can carry the remote-type
/// designation: a parenthesized argument list named `serde`.
pub open spec fn is_marker_attr(a: AttrV) -> bool {
    match a {
        AttrV::List { name, delim, items } => name == "serde"@ && delim == Delim::Paren,
        AttrV::Other => false,
    }
}

/// The argument list of a marker annotation.
pub open spec fn marker_items(a: AttrV) -> Seq<MetaItemV> {
    match a {
        AttrV::List { name, delim, items } => items,
        AttrV::Other => Seq::empty(),
    }
}

/// Whether argument `j` of annotation `i` designates a remote type: the
/// annotation is a marker and the argument is keyed by the sub-marker
/// `remote`.
pub open spec fn designates_at(attrs: Seq<AttrV>, i: int, j: int) -> bool {
    &&& 0 <= i < attrs.len()
    &&& is_marker_attr(attrs[i])
    &&& 0 <= j < marker_items(attrs[i]).len()
    &&& marker_items(attrs[i])[j].key == "remote"@
}

/// The string designated at position (i, j), where the argument's value
/// is a string literal.
pub open spec fn designated_string(attrs: Seq<AttrV>, i: int, j: int) -> Option<Seq<char>>
    recommends
        designates_at(attrs, i, j),
{
    match marker_items(attrs[i])[j].value {
        Some(AttrValueV::Str(s)) => Some(s),
        _ => None,
    }
}

/// Whether any annotation designates a remote type.
pub open spec fn has_designation(attrs: Seq<AttrV>) -> bool {
    exists|i: int, j: int| designates_at(attrs, i, j)
}

/// Whether some designation's value is not a string literal.
pub open spec fn has_malformed_designation(attrs: Seq<AttrV>) -> bool {
    exists|i: int, j: int|
        #[trigger] designates_at(attrs, i, j) && designated_string(attrs, i, j) is None
}

/// Whether some designation's value is a string literal.
pub open spec fn has_string_designation(attrs: Seq<AttrV>) -> bool {
    exists|i: int, j: int|
        #[trigger] designates_at(attrs, i, j) && designated_string(attrs, i, j) is Some
}

/// Every designation's value is a string literal.
pub open spec fn designations_are_strings(attrs: Seq<AttrV>) -> bool {
    forall|i: int, j: int|
        #[trigger] designates_at(attrs, i, j) ==> designated_string(attrs, i, j) is Some
}

/// Position (i0, j0) lies strictly before position (i, j) in
/// declaration order.
pub open spec fn pos_before(i0: int, j0: int, i: int, j: int) -> bool {
    i0 < i || (i0 == i && j0 < j)
}

/// Position (i0, j0) lies at or before position (i, j).
pub open spec fn pos_at_most(i0: int, j0: int, i: int, j: int) -> bool {
    i0 < i || (i0 == i && j0 <= j)
}

/// The designation at (i, j) is the last one in declaration order.
pub open spec fn last_designation_at(attrs: Seq<AttrV>, i: int, j: int) -> bool {
    designates_at(attrs, i, j) && forall|i2: int, j2: int|
        #[trigger] designates_at(attrs, i2, j2) ==> pos_at_most(i2, j2, i, j)
}

/// `s` is the string literal carried by the last designation.
pub open spec fn last_designation_is(attrs: Seq<AttrV>, s: Seq<char>) -> bool {
    exists|i: int, j: int|
        #[trigger] last_designation_at(attrs, i, j) && designated_string(attrs, i, j) == Some(s)
}

/// What the scan has established once every argument before position
/// (i, j) is consumed: each designation seen so far carried a string
/// literal, and `cur` holds the last one seen, if any.
pub open spec fn scan_state(attrs: Seq<AttrV>, i: int, j: int, cur: Option<Seq<char>>) -> bool {
    &&& (forall|i0: int, j0: int|
        #[trigger] designates_at(attrs, i0, j0) && pos_before(i0, j0, i, j)
            ==> designated_string(attrs, i0, j0) is Some)
    &&& (match cur {
        Some(s) => exists|i0: int, j0: int|
            (#[trigger] designates_at(attrs, i0, j0)) && pos_before(i0, j0, i, j)
                && designated_string(attrs, i0, j0) == Some(s) && (forall|i2: int, j2: int|
                #[trigger] designates_at(attrs, i2, j2) && pos_before(i2, j2, i, j)
                    ==> pos_at_most(i2, j2, i0, j0)),
        None => forall|i0: int, j0: int|
            #[trigger] designates_at(attrs, i0, j0) ==> !pos_before(i0, j0, i, j),
    })
}

/// Consuming an argument that designates nothing leaves the scan state
/// as it was.
proof fn lemma_skip_item(attrs: Seq<AttrV>, i: int, j: int, cur: Option<Seq<char>>)
    requires
        scan_state(attrs, i, j, cur),
        !designates_at(attrs, i, j),
    ensures
        scan_state(attrs, i, j + 1, cur),
{
    assert forall|i0: int, j0: int|
        designates_at(attrs, i0, j0) && pos_before(i0, j0, i, j + 1) implies designated_string(
        attrs,
        i0,
        j0,
    ) is Some by {
        assert(pos_before(i0, j0, i, j));
    }
    match cur {
        Some(s) => {
            let (i0, j0) = choose|i0: int, j0: int|
                (#[trigger] designates_at(attrs, i0, j0)) && pos_before(i0, j0, i, j)
                    && designated_string(attrs, i0, j0) == Some(s) && (forall|i2: int, j2: int|
                    #[trigger] designates_at(attrs, i2, j2) && pos_before(i2, j2, i, j)
                        ==> pos_at_most(i2, j2, i0, j0));
            assert(pos_before(i0, j0, i, j + 1));
            assert forall|i2: int, j2: int|
                designates_at(attrs, i2, j2) && pos_before(i2, j2, i, j + 1) implies pos_at_most(
                i2,
                j2,
                i0,
                j0,
            ) by {
                assert(pos_before(i2, j2, i, j));
            }
        },
        None => {
            assert forall|i0: int, j0: int| designates_at(attrs, i0, j0) implies !pos_before(
                i0,
                j0,
                i,
                j + 1,
            ) by {
                assert(!pos_before(i0, j0, i, j));
            }
        },
    }
}

/// Consuming a designation that carries the string `s` makes `s` the
/// last designation seen.
proof fn lemma_take_item(attrs: Seq<AttrV>, i: int, j: int, cur: Option<Seq<char>>, s: Seq<char>)
    requires
        scan_state(attrs, i, j, cur),
        designates_at(attrs, i, j),
        designated_string(attrs, i, j) == Some(s),
    ensures
        scan_state(attrs, i, j + 1, Some(s)),
{
    assert forall|i0: int, j0: int|
        designates_at(attrs, i0, j0) && pos_before(i0, j0, i, j + 1) implies designated_string(
        attrs,
        i0,
        j0,
    ) is Some by {
        if pos_before(i0, j0, i, j) {
        } else {
            assert(i0 == i && j0 == j);
        }
    }
    assert(pos_before(i, j, i, j + 1));
    assert forall|i2: int, j2: int|
        designates_at(attrs, i2, j2) && pos_before(i2, j2, i, j + 1) implies pos_at_most(
        i2,
        j2,
        i,
        j,
    ) by {}
}

/// Once every argument of annotation `i` is consumed, the scan state
/// advances to the head of the next annotation.
proof fn lemma_row_done(attrs: Seq<AttrV>, i: int, j: int, cur: Option<Seq<char>>)
    requires
        scan_state(attrs, i, j, cur),
        forall|j0: int| #[trigger] designates_at(attrs, i, j0) ==> j0 < j,
    ensures
        scan_state(attrs, i + 1, 0, cur),
{
    assert forall|i0: int, j0: int|
        designates_at(attrs, i0, j0) && pos_before(i0, j0, i + 1, 0) implies designated_string(
        attrs,
        i0,
        j0,
    ) is Some by {
        if i0 < i {
            assert(pos_before(i0, j0, i, j));
        } else {
            assert(i0 == i && j0 < j);
            assert(pos_before(i0, j0, i, j));
        }
    }
    match cur {
        Some(s) => {
            let (i0, j0) = choose|i0: int, j0: int|
                (#[trigger] designates_at(attrs, i0, j0)) && pos_before(i0, j0, i, j)
                    && designated_string(attrs, i0, j0) == Some(s) && (forall|i2: int, j2: int|
                    #[trigger] designates_at(attrs, i2, j2) && pos_before(i2, j2, i, j)
                        ==> pos_at_most(i2, j2, i0, j0));
            assert(pos_before(i0, j0, i + 1, 0));
            assert forall|i2: int, j2: int|
                designates_at(attrs, i2, j2) && pos_before(i2, j2, i + 1, 0) implies pos_at_most(
                i2,
                j2,
                i0,
                j0,
            ) by {
                if i2 < i {
                    assert(pos_before(i2, j2, i, j));
                } else {
                    assert(i2 == i && j2 < j);
                    assert(pos_before(i2, j2, i, j));
                }
            }
        },
        None => {
            assert forall|i0: int, j0: int| designates_at(attrs, i0, j0) implies !pos_before(
                i0,
                j0,
                i + 1,
                0,
            ) by {
                assert(!pos_before(i0, j0, i, j));
                if i0 < i + 1 && designates_at(attrs, i0, j0) {
                    if i0 == i {
                        assert(j0 < j);
                    }
                }
            }
        },
    }
}

/// Scans a declaration's annotations for the remote-type designation and
/// returns the designated type path, or the error that rejects the
/// declaration: `Ok` carries the last designation's string and implies
/// every designation was a string literal; the missing-designation error
/// comes exactly when no designation exists at all; the malformed-value
/// error only when some designation's value is not a string literal; and
/// the unparsable-path error, carrying the path parser's own diagnostic,
/// only when some designation's string was handed to the parser.
pub fn parse_remote_reference(decl: &RecordDecl) -> (r: Result<String, TransformError>)
    ensures
        (match r {
            Ok(s) => designations_are_strings(decl.attrs.deep_view()) && last_designation_is(
                decl.attrs.deep_view(),
                s@,
            ),
            Err(e) => match e {
                TransformError::MissingRemoteDesignation => !has_designation(
                    decl.attrs.deep_view(),
                ),
                TransformError::MalformedRemoteValue => has_malformed_designation(
                    decl.attrs.deep_view(),
                ),
                TransformError::UnparsableRemotePath(_) => has_string_designation(
                    decl.attrs.deep_view(),
                ),
                TransformError::UnsupportedShape => false,
            },
        }),
        !has_designation(decl.attrs.deep_view()) ==> r == Err::<String, TransformError>(
            TransformError::MissingRemoteDesignation,
        ),
{
    let marker = String::from_str("serde");
    let sub_marker = String::from_str("remote");
    let ghost attrs0 = decl.attrs.deep_view();
    let mut cur: Option<String> = None;
    let mut i: usize = 0;
    while i < decl.attrs.len()
        invariant
            i <= decl.attrs.len(),
            marker@ == "serde"@,
            sub_marker@ == "remote"@,
            attrs0 == decl.attrs.deep_view(),
            scan_state(attrs0, i as int, 0, cur.deep_view()),
        decreases decl.attrs.len() - i,
    {
        proof {
            assert(attrs0[i as int] == decl.attrs[i as int].deep_view());
        }
        match &decl.attrs[i] {
            Attr::List { name, delim, items } => {
                if *name == marker && *delim == Delim::Paren {
                    proof {
                        assert(is_marker_attr(attrs0[i as int]));
                        assert(marker_items(attrs0[i as int]) == items.deep_view());
                    }
                    let ghost items0 = items.deep_view();
                    let mut j: usize = 0;
                    while j < items.len()
                        invariant
                            j <= items.len(),
                            sub_marker@ == "remote"@,
                            attrs0 == decl.attrs.deep_view(),
                            items0 == items.deep_view(),
                            i < attrs0.len(),
                            is_marker_attr(attrs0[i as int]),
                            marker_items(attrs0[i as int]) == items0,
                            scan_state(attrs0, i as int, j as int, cur.deep_view()),
                        decreases items.len() - j,
                    {
                        proof {
                            assert(items0[j as int] == items[j as int].deep_view());
                        }
                        let it = &items[j];
                        if it.key == sub_marker {
                            proof {
                                assert(designates_at(attrs0, i as int, j as int));
                            }
                            match &it.value {
                                Some(AttrValue::Str(s)) => {
                                    proof {
                                        assert(designated_string(attrs0, i as int, j as int)
                                            == Some(s@));
                                    }
                                    match check_type_path(s) {
                                        Ok(()) => {
                                            proof {
                                                lemma_take_item(
                                                    attrs0,
                                                    i as int,
                                                    j as int,
                                                    cur.deep_view(),
                                                    s@,
                                                );
                                            }
                                            cur = Some(s.clone());
                                        },
                                        Err(d) => {
                                            proof {
                                                assert(has_string_designation(attrs0));
                                                assert(has_designation(attrs0));
                                            }
                                            return Err(TransformError::UnparsableRemotePath(d));
                                        },
                                    }
                                },
                                _ => {
                                    proof {
                                        assert(designated_string(attrs0, i as int, j as int)
                                            is None);
                                        assert(has_malformed_designation(attrs0));
                                        assert(has_designation(attrs0));
                                    }
                                    return Err(TransformError::MalformedRemoteValue);
                                },
                            }
                        } else {
                            proof {
                                assert(!designates_at(attrs0, i as int, j as int));
                                lemma_skip_item(attrs0, i as int, j as int, cur.deep_view());
                            }
                        }
                        j += 1;
                    }
                    proof {
                        assert forall|j0: int| designates_at(attrs0, i as int, j0) implies j0 < (
                        j as int) by {}
                        lemma_row_done(attrs0, i as int, j as int, cur.deep_view());
                    }
                } else {
                    proof {
                        assert(!is_marker_attr(attrs0[i as int]));
                        assert forall|j0: int| designates_at(attrs0, i as int, j0) implies j0
                            < 0 by {}
                        lemma_row_done(attrs0, i as int, 0, cur.deep_view());
                    }
                }
            },
            Attr::Other => {
                proof {
                    assert(!is_marker_attr(attrs0[i as int]));
                    assert forall|j0: int| designates_at(attrs0, i as int, j0) implies j0 < 0 by {}
                    lemma_row_done(attrs0, i as int, 0, cur.deep_view());
                }
            },
        }
        i += 1;
    }
    let ghost end: int = attrs0.len() as int;
    match cur {
        Some(s) => {
            proof {
                assert forall|i0: int, j0: int| designates_at(attrs0, i0, j0)
                    implies designated_string(attrs0, i0, j0) is Some by {
                    assert(pos_before(i0, j0, end, 0));
                }
                let (i0, j0) = choose|i0: int, j0: int|
                    (#[trigger] designates_at(attrs0, i0, j0)) && pos_before(i0, j0, end, 0)
                        && designated_string(attrs0, i0, j0) == Some(s@) && (forall|
                        i2: int,
                        j2: int,
                    |
                        #[trigger] designates_at(attrs0, i2, j2) && pos_before(i2, j2, end, 0)
                            ==> pos_at_most(i2, j2, i0, j0));
                assert forall|i2: int, j2: int| designates_at(attrs0, i2, j2) implies pos_at_most(
                    i2,
                    j2,
                    i0,
                    j0,
                ) by {
                    assert(pos_before(i2, j2, end, 0));
                }
                assert(last_designation_at(attrs0, i0, j0));
                assert(last_designation_is(attrs0, s@));
                assert(has_designation(attrs0));
            }
            Ok(s)
        },
        None => {
            proof {
                assert forall|i0: int, j0: int| !designates_at(attrs0, i0, j0) by {
                    if designates_at(attrs0, i0, j0) {
                        assert(!pos_before(i0, j0, end, 0));
                        assert(i0 < attrs0.len());
                    }
                }
                assert(!has_designation(attrs0));
            }
            Err(TransformError::MissingRemoteDesignation)
        },
    }
}

} // verus!
