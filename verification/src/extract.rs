//! The field extractor: walks a record declaration's member list,
//! requiring the flat named shape, and produces the ordered sequence of
//! (name, value type) descriptors.

use vstd::prelude::*;
use crate::decl::Body;
use crate::decl::BodyV;
use crate::decl::FieldDescriptor;
use crate::decl::FieldDescriptorV;
use crate::decl::FieldV;
use crate::decl::RecordDecl;
use crate::decl::RecordDeclV;
use crate::decl::TransformError;
use crate::decl::TransformErrorV;

verus! {

/// The descriptors of a named member list, in declaration order.
pub open spec fn descriptors_of(fs: Seq<FieldV>) -> Seq<FieldDescriptorV> {
    Seq::new(fs.len(), |i: int| FieldDescriptorV { name: fs[i].name, ty: fs[i].ty })
}

/// What extraction yields: the descriptors of a named member list, and a
/// rejection of every other shape.
pub open spec fn extract_spec(d: RecordDeclV) -> Result<Seq<FieldDescriptorV>, TransformErrorV> {
    match d.body {
        BodyV::Named(fs) => Ok(descriptors_of(fs)),
        _ => Err(TransformErrorV::UnsupportedShape),
    }
}

/// Extracts the ordered (name, value type) descriptors of a
/// declaration's named members; any other member shape is rejected as
/// unsupported.
pub fn extract_fields(decl: &RecordDecl) -> (r: Result<Vec<FieldDescriptor>, TransformError>)
    ensures
        match r {
            Ok(fds) => extract_spec(decl.deep_view()) == Ok::<_, TransformErrorV>(fds.deep_view()),
            Err(e) => extract_spec(decl.deep_view()) == Err::<Seq<FieldDescriptorV>, _>(
                e.deep_view(),
            ),
        },
{
    match &decl.body {
        Body::Named(fields) => {
            let mut out: Vec<FieldDescriptor> = Vec::new();
            let mut i: usize = 0;
            while i < fields.len()
                invariant
                    i <= fields.len(),
                    out.len() == i,
                    forall|j: int|
                        0 <= j < i ==> (#[trigger] out@[j].deep_view()) == (FieldDescriptorV {
                            name: fields@[j].name@,
                            ty: fields@[j].ty@,
                        }),
                decreases fields.len() - i,
            {
                let f = &fields[i];
                out.push(FieldDescriptor { name: f.name.clone(), ty: f.ty.clone() });
                i += 1;
            }
            proof {
                assert forall|j: int| 0 <= j < out.deep_view().len() implies out.deep_view()[j]
                    == descriptors_of(fields.deep_view())[j] by {
                    assert(out@[j].deep_view() == FieldDescriptorV {
                        name: fields@[j].name@,
                        ty: fields@[j].ty@,
                    });
                    assert(fields.deep_view()[j] == fields@[j].deep_view());
                }
                assert(out.deep_view() =~= descriptors_of(fields.deep_view()));
            }
            Ok(out)
        },
        _ => Err(TransformError::UnsupportedShape),
    }
}

} // verus!
