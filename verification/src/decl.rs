//! The record declaration model and its shape analysis.
//!
//! A record declaration is the compile-time description of a user type: its
//! name, its generic signature (kept verbatim, never interpreted), and its
//! data shape.  The analyzer classifies the shape and produces the ordered
//! field list, with one uniform accessor kind for named and positional
//! fields, or fails on declarations that are not struct-like.

use vstd::prelude::*;

verus! {

/// How one field of a record is reached: by name, or by zero-based position.
#[derive(Debug)]
pub enum Accessor {
    Named(String),
    Positional(usize),
}

/// One analyzed field: its accessor and the verbatim text of its type,
/// which is never inspected beyond re-emission.
#[derive(Debug)]
pub struct Field {
    pub accessor: Accessor,
    pub ty: String,
}

/// One named field of a declaration: its name and the text of its type.
#[derive(Debug)]
pub struct NamedFieldDecl {
    pub name: String,
    pub ty: String,
}

/// The fields of a struct-like declaration as the host declares them.
#[derive(Debug)]
pub enum FieldsDecl {
    /// `struct S { a: A, b: B }`, in declaration order.
    Named(Vec<NamedFieldDecl>),
    /// `struct S(A, B);` — only the field type texts, in declaration order.
    Unnamed(Vec<String>),
    /// `struct S;`
    Unit,
}

/// The data shape of a declaration.
#[derive(Debug)]
pub enum DeclData {
    Struct(FieldsDecl),
    Enum,
    Union,
}

/// A record declaration: name, generic signature split the way an `impl`
/// block needs it (each part verbatim, possibly empty), and data shape.
#[derive(Debug)]
pub struct Decl {
    pub name: String,
    /// Generics as they follow the `impl` keyword, e.g. `<T: Clone>`.
    pub impl_generics: String,
    /// Generics as they follow the type name, e.g. `<T>`.
    pub ty_generics: String,
    /// The `where` clause, e.g. `where T: Clone`, or empty.
    pub where_clause: String,
    pub data: DeclData,
}

/// The classification of a record's shape.
#[derive(Clone, Copy, Debug, PartialEq, Eq, Structural)]
pub enum Kind {
    NoFields,
    NamedFields,
    PositionalFields,
}

/// Why generation failed.
#[derive(Clone, Copy, Debug, PartialEq, Eq, Structural)]
pub enum GenError {
    /// The declaration is a tagged union (or an untagged one): no
    /// field-enumeration strategy exists for it, so nothing is generated.
    UnsupportedShape,
}

/// What the shape analyzer produces: the kind and the ordered field list.
#[derive(Debug)]
pub struct ShapeInfo {
    pub kind: Kind,
    pub fields: Vec<Field>,
}

/// Holds when accessor `a` is the named accessor for the name `n`.
pub open spec fn accessor_is_named(a: Accessor, n: Seq<char>) -> bool {
    match a {
        Accessor::Named(s) => s@ == n,
        Accessor::Positional(_) => false,
    }
}

/// Holds when accessor `a` is the positional accessor for index `i`.
pub open spec fn accessor_is_positional(a: Accessor, i: int) -> bool {
    match a {
        Accessor::Named(_) => false,
        Accessor::Positional(p) => p == i,
    }
}

/// Holds when `info` is exactly the analysis of the shape `data`.
pub open spec fn analysis_of(data: DeclData, info: ShapeInfo) -> bool {
    match data {
        DeclData::Struct(FieldsDecl::Named(ns)) => {
            &&& info.kind == Kind::NamedFields
            &&& info.fields@.len() == ns@.len()
            &&& forall|i: int|
                0 <= i < ns@.len() ==> {
                    &&& accessor_is_named(#[trigger] info.fields@[i].accessor, ns@[i].name@)
                    &&& info.fields@[i].ty@ == ns@[i].ty@
                }
        },
        DeclData::Struct(FieldsDecl::Unnamed(ts)) => {
            &&& info.kind == Kind::PositionalFields
            &&& info.fields@.len() == ts@.len()
            &&& forall|i: int|
                0 <= i < ts@.len() ==> {
                    &&& accessor_is_positional(#[trigger] info.fields@[i].accessor, i)
                    &&& info.fields@[i].ty@ == ts@[i]@
                }
        },
        DeclData::Struct(FieldsDecl::Unit) => {
            &&& info.kind == Kind::NoFields
            &&& info.fields@.len() == 0
        },
        _ => false,
    }
}

/// Holds when the shape is struct-like, i.e. one generation supports.
pub open spec fn supported_shape(data: DeclData) -> bool {
    data is Struct
}

/// Classifies a declaration's shape and produces its ordered field list.
///
/// Succeeds exactly on struct-like shapes; a tagged-union or untagged-union
/// declaration fails generation outright.
pub fn analyze(data: &DeclData) -> (res: Result<ShapeInfo, GenError>)
    ensures
        supported_shape(*data) <==> res is Ok,
        res matches Ok(info) ==> analysis_of(*data, info),
        res matches Err(e) ==> e == GenError::UnsupportedShape,
{
    match data {
        DeclData::Struct(FieldsDecl::Named(ns)) => {
            let mut fields: Vec<Field> = Vec::new();
            let mut i: usize = 0;
            while i < ns.len()
                invariant
                    i <= ns.len(),
                    fields@.len() == i,
                    forall|j: int|
                        0 <= j < i ==> {
                            &&& accessor_is_named(#[trigger] fields@[j].accessor, ns@[j].name@)
                            &&& fields@[j].ty@ == ns@[j].ty@
                        },
                decreases ns.len() - i,
            {
                let f = &ns[i];
                fields.push(Field { accessor: Accessor::Named(f.name.clone()), ty: f.ty.clone() });
                i = i + 1;
            }
            Ok(ShapeInfo { kind: Kind::NamedFields, fields })
        },
        DeclData::Struct(FieldsDecl::Unnamed(ts)) => {
            let mut fields: Vec<Field> = Vec::new();
            let mut i: usize = 0;
            while i < ts.len()
                invariant
                    i <= ts.len(),
                    fields@.len() == i,
                    forall|j: int|
                        0 <= j < i ==> {
                            &&& accessor_is_positional(#[trigger] fields@[j].accessor, j)
                            &&& fields@[j].ty@ == ts@[j]@
                        },
                decreases ts.len() - i,
            {
                let t = &ts[i];
                fields.push(Field { accessor: Accessor::Positional(i), ty: t.clone() });
                i = i + 1;
            }
            Ok(ShapeInfo { kind: Kind::PositionalFields, fields })
        },
        DeclData::Struct(FieldsDecl::Unit) => Ok(
            ShapeInfo { kind: Kind::NoFields, fields: Vec::new() },
        ),
        DeclData::Enum => Err(GenError::UnsupportedShape),
        DeclData::Union => Err(GenError::UnsupportedShape),
    }
}

} // verus!
