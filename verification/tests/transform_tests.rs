use remote_converter::decl::Attr;
use remote_converter::decl::AttrValue;
use remote_converter::decl::Body;
use remote_converter::decl::Delim;
use remote_converter::decl::Field;
use remote_converter::decl::MetaItem;
use remote_converter::decl::RecordDecl;
use remote_converter::decl::TransformError;
use remote_converter::transform::remote_converter;
use remote_converter::transform::transform_with_remote;

fn remote_attr(path_text: &str) -> Attr {
    Attr::List {
        name: String::from("serde"),
        delim: Delim::Paren,
        items: vec![MetaItem {
            key: String::from("remote"),
            value: Some(AttrValue::Str(String::from(path_text))),
        }],
    }
}

fn field(name: &str, ty: &str) -> Field {
    Field { name: String::from(name), ty: String::from(ty), attrs: vec![] }
}

fn getter_attr(name: &str) -> Attr {
    Attr::List {
        name: String::from("serde"),
        delim: Delim::Paren,
        items: vec![MetaItem {
            key: String::from("getter"),
            value: Some(AttrValue::Str(format!("Self::{}", name))),
        }],
    }
}

fn point_decl() -> RecordDecl {
    RecordDecl {
        name: String::from("Point"),
        generics: vec![],
        attrs: vec![remote_attr("other_crate::Point")],
        body: Body::Named(vec![field("x", "i32"), field("y", "i32")]),
    }
}

#[test]
fn scenario_flat_record() {
    let out = remote_converter(point_decl()).unwrap();

    assert_eq!(out.accessors.len(), 2);
    let a0 = &out.accessors[0];
    assert_eq!(a0.owner, "Point");
    assert_eq!(a0.name, "x");
    assert!(a0.generics.is_empty());
    assert_eq!(a0.remote, "other_crate::Point");
    assert_eq!(a0.ret_ty, "i32");
    let a1 = &out.accessors[1];
    assert_eq!(a1.name, "y");
    assert_eq!(a1.ret_ty, "i32");

    assert_eq!(out.decl.name, "Point");
    assert_eq!(out.decl.attrs, vec![remote_attr("other_crate::Point")]);
    match &out.decl.body {
        Body::Named(fields) => {
            assert_eq!(fields.len(), 2);
            assert_eq!(fields[0].name, "x");
            assert_eq!(fields[0].ty, "i32");
            assert_eq!(fields[0].attrs, vec![getter_attr("x")]);
            assert_eq!(fields[1].attrs, vec![getter_attr("y")]);
        }
        other => panic!("expected named body, got {:?}", other),
    }
}

#[test]
fn scenario_generic_record() {
    let decl = RecordDecl {
        name: String::from("Wrapper"),
        generics: vec![String::from("T")],
        attrs: vec![remote_attr("ext::Wrapper<T>")],
        body: Body::Named(vec![field("value", "T")]),
    };
    let out = remote_converter(decl).unwrap();

    assert_eq!(out.accessors.len(), 1);
    let a = &out.accessors[0];
    assert_eq!(a.owner, "Wrapper");
    assert_eq!(a.name, "value");
    assert_eq!(a.generics, vec![String::from("T")]);
    assert_eq!(a.remote, "ext::Wrapper<T>");
    assert_eq!(a.ret_ty, "T");
    assert_eq!(out.decl.generics, vec![String::from("T")]);
}

#[test]
fn scenario_missing_designation() {
    let decl = RecordDecl {
        name: String::from("Point"),
        generics: vec![],
        attrs: vec![],
        body: Body::Named(vec![field("x", "i32")]),
    };
    let err = remote_converter(decl).unwrap_err();
    assert_eq!(err, TransformError::MissingRemoteDesignation);
    assert_eq!(err.message(), "cannot find remote-type designation");
}

#[test]
fn scenario_tuple_body() {
    let decl = RecordDecl {
        name: String::from("Pair"),
        generics: vec![],
        attrs: vec![remote_attr("other_crate::Pair")],
        body: Body::Unnamed(vec![String::from("i32"), String::from("i32")]),
    };
    let err = remote_converter(decl).unwrap_err();
    assert_eq!(err, TransformError::UnsupportedShape);
    assert_eq!(err.message(), "only named-field records are supported");
}

#[test]
fn unit_body_is_unsupported() {
    let decl = RecordDecl {
        name: String::from("Unit"),
        generics: vec![],
        attrs: vec![remote_attr("other_crate::Unit")],
        body: Body::Unit,
    };
    assert_eq!(remote_converter(decl).unwrap_err(), TransformError::UnsupportedShape);
}

#[test]
fn missing_designation_beats_unsupported_shape() {
    let decl = RecordDecl {
        name: String::from("Pair"),
        generics: vec![],
        attrs: vec![],
        body: Body::Unnamed(vec![String::from("i32")]),
    };
    assert_eq!(remote_converter(decl).unwrap_err(), TransformError::MissingRemoteDesignation);
}

#[test]
fn non_literal_designation_value() {
    let decl = RecordDecl {
        name: String::from("Point"),
        generics: vec![],
        attrs: vec![Attr::List {
            name: String::from("serde"),
            delim: Delim::Paren,
            items: vec![MetaItem { key: String::from("remote"), value: Some(AttrValue::Other) }],
        }],
        body: Body::Named(vec![field("x", "i32")]),
    };
    let err = remote_converter(decl).unwrap_err();
    assert_eq!(err, TransformError::MalformedRemoteValue);
    assert_eq!(err.message(), "expected string literal");
}

#[test]
fn designation_without_value() {
    let decl = RecordDecl {
        name: String::from("Point"),
        generics: vec![],
        attrs: vec![Attr::List {
            name: String::from("serde"),
            delim: Delim::Paren,
            items: vec![MetaItem { key: String::from("remote"), value: None }],
        }],
        body: Body::Named(vec![field("x", "i32")]),
    };
    assert_eq!(remote_converter(decl).unwrap_err(), TransformError::MalformedRemoteValue);
}

#[test]
fn unparsable_designation_path() {
    let decl = RecordDecl {
        name: String::from("Point"),
        generics: vec![],
        attrs: vec![remote_attr("not a type path !!!")],
        body: Body::Named(vec![field("x", "i32")]),
    };
    let err = remote_converter(decl).unwrap_err();
    match &err {
        TransformError::UnparsableRemotePath(diag) => {
            assert!(!diag.is_empty());
            assert_eq!(err.message(), *diag);
        }
        other => panic!("expected an unparsable-path error, got {:?}", other),
    }
}

#[test]
fn malformed_designation_aborts_despite_later_valid_one() {
    let decl = RecordDecl {
        name: String::from("Point"),
        generics: vec![],
        attrs: vec![
            Attr::List {
                name: String::from("serde"),
                delim: Delim::Paren,
                items: vec![MetaItem {
                    key: String::from("remote"),
                    value: Some(AttrValue::Other),
                }],
            },
            remote_attr("other_crate::Point"),
        ],
        body: Body::Named(vec![field("x", "i32")]),
    };
    assert_eq!(remote_converter(decl).unwrap_err(), TransformError::MalformedRemoteValue);
}

#[test]
fn last_designation_wins() {
    let decl = RecordDecl {
        name: String::from("Point"),
        generics: vec![],
        attrs: vec![remote_attr("first::Point"), remote_attr("second::Point")],
        body: Body::Named(vec![field("x", "i32")]),
    };
    let out = remote_converter(decl).unwrap();
    assert_eq!(out.accessors[0].remote, "second::Point");
}

#[test]
fn marker_must_be_parenthesized_serde_list() {
    let bracketed = RecordDecl {
        name: String::from("Point"),
        generics: vec![],
        attrs: vec![Attr::List {
            name: String::from("serde"),
            delim: Delim::Bracket,
            items: vec![MetaItem {
                key: String::from("remote"),
                value: Some(AttrValue::Str(String::from("other_crate::Point"))),
            }],
        }],
        body: Body::Named(vec![field("x", "i32")]),
    };
    assert_eq!(remote_converter(bracketed).unwrap_err(), TransformError::MissingRemoteDesignation);

    let other_name = RecordDecl {
        name: String::from("Point"),
        generics: vec![],
        attrs: vec![Attr::List {
            name: String::from("derive"),
            delim: Delim::Paren,
            items: vec![MetaItem {
                key: String::from("remote"),
                value: Some(AttrValue::Str(String::from("other_crate::Point"))),
            }],
        }],
        body: Body::Named(vec![field("x", "i32")]),
    };
    assert_eq!(remote_converter(other_name).unwrap_err(), TransformError::MissingRemoteDesignation);
}

#[test]
fn other_attributes_are_carried_through() {
    let mut decl = point_decl();
    decl.attrs.push(Attr::Other);
    let expected_attrs = decl.attrs.clone();
    let out = remote_converter(decl).unwrap();
    assert_eq!(out.decl.attrs, expected_attrs);
}

#[test]
fn field_attributes_keep_their_order() {
    let mut f = field("x", "i32");
    f.attrs.push(Attr::Other);
    let decl = RecordDecl {
        name: String::from("Point"),
        generics: vec![],
        attrs: vec![remote_attr("other_crate::Point")],
        body: Body::Named(vec![f]),
    };
    let out = remote_converter(decl).unwrap();
    match &out.decl.body {
        Body::Named(fields) => {
            assert_eq!(fields[0].attrs, vec![Attr::Other, getter_attr("x")]);
        }
        other => panic!("expected named body, got {:?}", other),
    }
}

#[test]
fn empty_record_yields_no_accessors() {
    let decl = RecordDecl {
        name: String::from("Empty"),
        generics: vec![],
        attrs: vec![remote_attr("other_crate::Empty")],
        body: Body::Named(vec![]),
    };
    let out = remote_converter(decl).unwrap();
    assert!(out.accessors.is_empty());
    assert_eq!(out.decl.body, Body::Named(vec![]));
}

#[test]
fn field_order_is_preserved() {
    let decl = RecordDecl {
        name: String::from("Rec"),
        generics: vec![],
        attrs: vec![remote_attr("ext::Rec")],
        body: Body::Named(vec![field("c", "u8"), field("a", "u16"), field("b", "u32")]),
    };
    let out = remote_converter(decl).unwrap();
    let names: Vec<&str> = out.accessors.iter().map(|a| a.name.as_str()).collect();
    assert_eq!(names, vec!["c", "a", "b"]);
    let tys: Vec<&str> = out.accessors.iter().map(|a| a.ret_ty.as_str()).collect();
    assert_eq!(tys, vec!["u8", "u16", "u32"]);
}

#[test]
fn flat_record_signatures() {
    let out = remote_converter(point_decl()).unwrap();
    assert_eq!(out.accessors[0].signature(), "fn x(i: &other_crate::Point) -> &i32");
    assert_eq!(out.accessors[1].signature(), "fn y(i: &other_crate::Point) -> &i32");
}

#[test]
fn generic_record_signature() {
    let decl = RecordDecl {
        name: String::from("Wrapper"),
        generics: vec![String::from("T")],
        attrs: vec![remote_attr("ext::Wrapper<T>")],
        body: Body::Named(vec![field("value", "T")]),
    };
    let out = remote_converter(decl).unwrap();
    assert_eq!(out.accessors[0].signature(), "fn value<T>(i: &ext::Wrapper<T>) -> &T");
}

#[test]
fn two_parameter_signature() {
    let decl = RecordDecl {
        name: String::from("PairOf"),
        generics: vec![String::from("T"), String::from("U")],
        attrs: vec![remote_attr("ext::PairOf")],
        body: Body::Named(vec![field("left", "T")]),
    };
    let out = remote_converter(decl).unwrap();
    assert_eq!(out.accessors[0].signature(), "fn left<T, U>(i: &ext::PairOf) -> &T");
}

#[test]
fn accessor_bodies_project_the_member() {
    let out = remote_converter(point_decl()).unwrap();
    assert_eq!(
        out.accessors[0].body_text(),
        "&unsafe { std::mem::transmute::<_, &Self>(i) }.x"
    );
    assert_eq!(
        out.accessors[1].body_text(),
        "&unsafe { std::mem::transmute::<_, &Self>(i) }.y"
    );
}

#[test]
fn assembly_around_a_given_remote() {
    let decl = RecordDecl {
        name: String::from("Point"),
        generics: vec![],
        attrs: vec![],
        body: Body::Named(vec![field("x", "i32")]),
    };
    let out = transform_with_remote(decl, String::from("other_crate::Point")).unwrap();
    assert_eq!(out.accessors.len(), 1);
    assert_eq!(out.accessors[0].remote, "other_crate::Point");
}

#[test]
fn assembly_rejects_unnamed_members() {
    let decl = RecordDecl {
        name: String::from("Pair"),
        generics: vec![],
        attrs: vec![],
        body: Body::Unnamed(vec![String::from("i32")]),
    };
    assert_eq!(
        transform_with_remote(decl, String::from("other_crate::Pair")).unwrap_err(),
        TransformError::UnsupportedShape
    );
}

#[test]
fn transformation_is_idempotent_on_equal_input() {
    let first = remote_converter(point_decl()).unwrap();
    let second = remote_converter(point_decl()).unwrap();
    assert_eq!(first, second);
}

#[test]
fn generic_accessors_share_the_parameter_list() {
    let decl = RecordDecl {
        name: String::from("PairOf"),
        generics: vec![String::from("T"), String::from("U")],
        attrs: vec![remote_attr("ext::PairOf")],
        body: Body::Named(vec![field("left", "T"), field("right", "U")]),
    };
    let out = remote_converter(decl).unwrap();
    for a in &out.accessors {
        assert_eq!(a.generics, vec![String::from("T"), String::from("U")]);
        assert_eq!(a.remote, "ext::PairOf");
    }
}
