//! The data model of the transformation: record declarations, their
//! annotations, and the artifacts the transformation produces.
//!
//! Each executable type has a ghost counterpart (its deep view) over
//! `Seq<char>` and `Seq`, which the contracts and the spec-level model of
//! the transformation speak of.

use vstd::prelude::*;

verus! {

/// How an annotation's argument list is delimited.
#[derive(Clone, Copy, PartialEq, Eq, Structural, Debug)]
pub enum Delim {
    Paren,
    Bracket,
    Brace,
}

/// The value side of a `key = value` argument inside an annotation.
/// Only double-quoted string literals are meaningful to the
/// transformation; every other shape is carried as `Other`.
#[derive(Clone, PartialEq, Eq, Debug)]
pub enum AttrValue {
    Str(String),
    Other,
}

/// Ghost counterpart of [`AttrValue`].
pub enum AttrValueV {
    Str(Seq<char>),
    Other,
}

impl DeepView for AttrValue {
    type V = AttrValueV;

    open spec fn deep_view(&self) -> AttrValueV {
        match self {
            AttrValue::Str(s) => AttrValueV::Str(s@),
            AttrValue::Other => AttrValueV::Other,
        }
    }
}

/// One argument inside an annotation's argument list: a key, optionally
/// followed by `= value`.
#[derive(Clone, PartialEq, Eq, Debug)]
pub struct MetaItem {
    pub key: String,
    pub value: Option<AttrValue>,
}

/// Ghost counterpart of [`MetaItem`].
pub struct MetaItemV {
    pub key: Seq<char>,
    pub value: Option<AttrValueV>,
}

impl DeepView for MetaItem {
    type V = MetaItemV;

    open spec fn deep_view(&self) -> MetaItemV {
        MetaItemV { key: self.key@, value: self.value.deep_view() }
    }
}

/// An attribute annotation attached to a record declaration or to one of
/// its members.  The transformation only inspects the list form (a name
/// followed by a delimited argument list); every other form is carried
/// through as `Other`.
#[derive(Clone, PartialEq, Eq, Debug)]
pub enum Attr {
    List { name: String, delim: Delim, items: Vec<MetaItem> },
    Other,
}

/// Ghost counterpart of [`Attr`].
pub enum AttrV {
    List { name: Seq<char>, delim: Delim, items: Seq<MetaItemV> },
    Other,
}

impl DeepView for Attr {
    type V = AttrV;

    open spec fn deep_view(&self) -> AttrV {
        match self {
            Attr::List { name, delim, items } => AttrV::List {
                name: name@,
                delim: *delim,
                items: items.deep_view(),
            },
            Attr::Other => AttrV::Other,
        }
    }
}

/// A named member of a record declaration: its name, the textual form of
/// its value type, and the annotations attached to it.
#[derive(Clone, PartialEq, Eq, Debug)]
pub struct Field {
    pub name: String,
    pub ty: String,
    pub attrs: Vec<Attr>,
}

/// Ghost counterpart of [`Field`].
pub struct FieldV {
    pub name: Seq<char>,
    pub ty: Seq<char>,
    pub attrs: Seq<AttrV>,
}

impl DeepView for Field {
    type V = FieldV;

    open spec fn deep_view(&self) -> FieldV {
        FieldV { name: self.name@, ty: self.ty@, attrs: self.attrs.deep_view() }
    }
}

/// The member list of a record declaration.  Only the named shape is
/// supported by the transformation; the unnamed (tuple) and unit shapes
/// are modelled so that they can be rejected.
#[derive(Clone, PartialEq, Eq, Debug)]
pub enum Body {
    Named(Vec<Field>),
    Unnamed(Vec<String>),
    Unit,
}

/// Ghost counterpart of [`Body`].
pub enum BodyV {
    Named(Seq<FieldV>),
    Unnamed(Seq<Seq<char>>),
    Unit,
}

impl DeepView for Body {
    type V = BodyV;

    open spec fn deep_view(&self) -> BodyV {
        match self {
            Body::Named(fields) => BodyV::Named(fields.deep_view()),
            Body::Unnamed(tys) => BodyV::Unnamed(tys.deep_view()),
            Body::Unit => BodyV::Unit,
        }
    }
}

/// A record declaration: its name, its generic-parameter list, the
/// annotations attached to the whole record, and its member list.  The
/// generic-parameter list holds the parameters' textual forms; a
/// where-clause is outside this model and is a frontend's to carry
/// through unchanged.
#[derive(Clone, PartialEq, Eq, Debug)]
pub struct RecordDecl {
    pub name: String,
    pub generics: Vec<String>,
    pub attrs: Vec<Attr>,
    pub body: Body,
}

/// Ghost counterpart of [`RecordDecl`].
pub struct RecordDeclV {
    pub name: Seq<char>,
    pub generics: Seq<Seq<char>>,
    pub attrs: Seq<AttrV>,
    pub body: BodyV,
}

impl DeepView for RecordDecl {
    type V = RecordDeclV;

    open spec fn deep_view(&self) -> RecordDeclV {
        RecordDeclV {
            name: self.name@,
            generics: self.generics.deep_view(),
            attrs: self.attrs.deep_view(),
            body: self.body.deep_view(),
        }
    }
}

/// A (name, value type) pair extracted from one named member, in
/// declaration order.
#[derive(Clone, PartialEq, Eq, Debug)]
pub struct FieldDescriptor {
    pub name: String,
    pub ty: String,
}

/// Ghost counterpart of [`FieldDescriptor`].
pub struct FieldDescriptorV {
    pub name: Seq<char>,
    pub ty: Seq<char>,
}

impl DeepView for FieldDescriptor {
    type V = FieldDescriptorV;

    open spec fn deep_view(&self) -> FieldDescriptorV {
        FieldDescriptorV { name: self.name@, ty: self.ty@ }
    }
}

/// One generated accessor function: a function named after its field,
/// owned by the rewritten declaration (reachable as `owner::name`),
/// generic over the declaration's own parameters, taking a reference to
/// the remote type and returning a reference to the field's value type.
#[derive(Clone, PartialEq, Eq, Debug)]
pub struct Accessor {
    pub owner: String,
    pub name: String,
    pub generics: Vec<String>,
    pub remote: String,
    pub ret_ty: String,
}

/// Ghost counterpart of [`Accessor`].
pub struct AccessorV {
    pub owner: Seq<char>,
    pub name: Seq<char>,
    pub generics: Seq<Seq<char>>,
    pub remote: Seq<char>,
    pub ret_ty: Seq<char>,
}

impl DeepView for Accessor {
    type V = AccessorV;

    open spec fn deep_view(&self) -> AccessorV {
        AccessorV {
            owner: self.owner@,
            name: self.name@,
            generics: self.generics.deep_view(),
            remote: self.remote@,
            ret_ty: self.ret_ty@,
        }
    }
}

/// The complete result of one transformation: the rewritten declaration
/// paired with the generated accessors, one per named member, in
/// declaration order.
#[derive(Clone, PartialEq, Eq, Debug)]
pub struct OutputUnit {
    pub decl: RecordDecl,
    pub accessors: Vec<Accessor>,
}

/// Ghost counterpart of [`OutputUnit`].
pub struct OutputUnitV {
    pub decl: RecordDeclV,
    pub accessors: Seq<AccessorV>,
}

impl DeepView for OutputUnit {
    type V = OutputUnitV;

    open spec fn deep_view(&self) -> OutputUnitV {
        OutputUnitV { decl: self.decl.deep_view(), accessors: self.accessors.deep_view() }
    }
}

/// Why a transformation was rejected.  Every failure is fatal: no partial
/// output is ever produced.
#[derive(Clone, PartialEq, Eq, Debug)]
pub enum TransformError {
    /// No annotation designates a remote type.
    MissingRemoteDesignation,
    /// A designation is present but its value is not a string literal.
    MalformedRemoteValue,
    /// The designated string does not parse as a type path; carries the
    /// underlying parse diagnostic.
    UnparsableRemotePath(String),
    /// The declaration's member list is not the flat named shape.
    UnsupportedShape,
}

/// Ghost counterpart of [`TransformError`].
pub enum TransformErrorV {
    MissingRemoteDesignation,
    MalformedRemoteValue,
    UnparsableRemotePath(Seq<char>),
    UnsupportedShape,
}

impl DeepView for TransformError {
    type V = TransformErrorV;

    open spec fn deep_view(&self) -> TransformErrorV {
        match self {
            TransformError::MissingRemoteDesignation => TransformErrorV::MissingRemoteDesignation,
            TransformError::MalformedRemoteValue => TransformErrorV::MalformedRemoteValue,
            TransformError::UnparsableRemotePath(d) => TransformErrorV::UnparsableRemotePath(d@),
            TransformError::UnsupportedShape => TransformErrorV::UnsupportedShape,
        }
    }
}

/// The named members of a declaration, empty for every other shape.
pub open spec fn body_fields(d: RecordDeclV) -> Seq<FieldV> {
    match d.body {
        BodyV::Named(fs) => fs,
        _ => Seq::empty(),
    }
}

/// The diagnostic text of an error, as a spec-level sequence of
/// characters.
pub open spec fn message_of(e: TransformErrorV) -> Seq<char> {
    match e {
        TransformErrorV::MissingRemoteDesignation => "cannot find remote-type designation"@,
        TransformErrorV::MalformedRemoteValue => "expected string literal"@,
        TransformErrorV::UnparsableRemotePath(d) => d,
        TransformErrorV::UnsupportedShape => "only named-field records are supported"@,
    }
}

impl TransformError {
    /// The human-readable diagnostic that aborts the enclosing build.
    pub fn message(&self) -> (r: String)
        ensures
            r@ == message_of(self.deep_view()),
    {
        match self {
            TransformError::MissingRemoteDesignation => String::from_str(
                "cannot find remote-type designation",
            ),
            TransformError::MalformedRemoteValue => String::from_str("expected string literal"),
            TransformError::UnparsableRemotePath(d) => d.clone(),
            TransformError::UnsupportedShape => String::from_str(
                "only named-field records are supported",
            ),
        }
    }
}

} // verus!
