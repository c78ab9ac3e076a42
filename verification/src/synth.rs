//! The comparison synthesizer.
//!
//! Given a record's name, its generic signature (re-emitted verbatim) and
//! its analyzed shape, this module emits the text of an `impl` of
//! [`crate::AllEq`] whose body conjoins one per-field equality check in
//! declaration order — `self.a == other.a && self.b == other.b`, with
//! positional fields accessed as `self.0`, `self.1`, … — or the literal
//! `true` for a record with no fields.  Each field's check uses the field
//! type's own equality operator, never the record's possibly overridden one.

use crate::decl::{analyze, Accessor, Decl, DeclData, Field, FieldsDecl, GenError, ShapeInfo};
use crate::digits::{dec_seq, usize_to_dec};
use vstd::prelude::*;
use vstd::string::StringExecFns;

verus! {

/// The text a field accessor contributes after `self.` or `other.`:
/// the field's name, or its position in decimal.
pub open spec fn acc_label(a: Accessor) -> Seq<char> {
    match a {
        Accessor::Named(s) => s@,
        Accessor::Positional(i) => dec_seq(i as nat),
    }
}

/// The text of one per-field equality check.
pub open spec fn term_text(label: Seq<char>) -> Seq<char> {
    "self."@ + label + " == other."@ + label
}

/// The conjunction of the per-field checks for `labels`, left to right.
pub open spec fn conj_text(labels: Seq<Seq<char>>) -> Seq<char>
    decreases labels.len(),
{
    if labels.len() == 0 {
        Seq::empty()
    } else if labels.len() == 1 {
        term_text(labels[0])
    } else {
        term_text(labels[0]) + " && "@ + conj_text(labels.skip(1))
    }
}

/// The generated function body: the conjunction of per-field checks, or the
/// literal `true` for the empty conjunction of a record with no fields.
pub open spec fn expr_text(labels: Seq<Seq<char>>) -> Seq<char> {
    if labels.len() == 0 {
        "true"@
    } else {
        conj_text(labels)
    }
}

/// The accessor labels of an analyzed field list, in declaration order.
pub open spec fn labels_of_fields(fs: Seq<Field>) -> Seq<Seq<char>> {
    Seq::new(fs.len(), |i: int| acc_label(fs[i].accessor))
}

/// The accessor labels a declaration's shape gives rise to: field names for
/// named fields, decimal positions for positional ones.
pub open spec fn labels_of_data(data: DeclData) -> Seq<Seq<char>> {
    match data {
        DeclData::Struct(FieldsDecl::Named(ns)) => Seq::new(
            ns@.len(),
            |i: int| ns@[i].name@,
        ),
        DeclData::Struct(FieldsDecl::Unnamed(ts)) => Seq::new(
            ts@.len(),
            |i: int| dec_seq(i as nat),
        ),
        _ => Seq::empty(),
    }
}

/// The `where` clause as it is re-emitted: untouched, behind one space,
/// or nothing at all when the declaration has none.
pub open spec fn where_part(wc: Seq<char>) -> Seq<char> {
    if wc.len() == 0 {
        Seq::empty()
    } else {
        " "@ + wc
    }
}

/// The full generated `impl`, from the record's name, its verbatim generic
/// signature, and its accessor labels.
pub open spec fn impl_text_with(
    name: Seq<char>,
    impl_generics: Seq<char>,
    ty_generics: Seq<char>,
    where_clause: Seq<char>,
    labels: Seq<Seq<char>>,
) -> Seq<char> {
    "impl"@ + impl_generics + " all_eq::AllEq for "@ + name + ty_generics + where_part(
        where_clause,
    ) + " { fn all_eq(&self, other: &"@ + name + ty_generics + ") -> bool { "@ + expr_text(labels)
        + " } }"@
}

/// The generated `impl` for a whole declaration.
pub open spec fn impl_text(d: Decl) -> Seq<char> {
    impl_text_with(d.name@, d.impl_generics@, d.ty_generics@, d.where_clause@, labels_of_data(d.data))
}

/// Emits the accessor label of one field.
pub fn accessor_label(a: &Accessor) -> (res: String)
    ensures
        res@ == acc_label(*a),
{
    match a {
        Accessor::Named(s) => s.clone(),
        Accessor::Positional(i) => usize_to_dec(*i),
    }
}

/// Emits one per-field equality check.
fn compare_term(a: &Accessor) -> (res: String)
    ensures
        res@ == term_text(acc_label(*a)),
{
    let label = accessor_label(a);
    let mut s = String::from_str("self.");
    s.append(label.as_str());
    s.append(" == other.");
    s.append(label.as_str());
    s
}

/// Emits the conjunction of the checks for `fields[i..]`.
fn conj_from(fields: &Vec<Field>, i: usize) -> (res: String)
    requires
        i < fields@.len(),
    ensures
        res@ == conj_text(labels_of_fields(fields@).skip(i as int)),
    decreases fields@.len() - i,
{
    let n = fields.len();
    let mut s = compare_term(&fields[i].accessor);
    if i + 1 == n {
        proof {
            assert(labels_of_fields(fields@).skip(i as int).len() == 1);
            assert(labels_of_fields(fields@).skip(i as int)[0] == acc_label(
                fields@[i as int].accessor,
            ));
        }
        s
    } else {
        s.append(" && ");
        let rest = conj_from(fields, i + 1);
        s.append(rest.as_str());
        proof {
            let labels = labels_of_fields(fields@);
            assert(labels.skip(i as int)[0] == acc_label(fields@[i as int].accessor));
            assert(labels.skip(i as int).skip(1) =~= labels.skip(i as int + 1));
        }
        s
    }
}

/// Emits the generated function body for an analyzed field list: the
/// conjunction of one equality check per field in declaration order, or the
/// literal `true` when there are no fields.
pub fn comparison_expr(fields: &Vec<Field>) -> (res: String)
    ensures
        res@ == expr_text(labels_of_fields(fields@)),
{
    if fields.len() == 0 {
        String::from_str("true")
    } else {
        let res = conj_from(fields, 0);
        proof {
            assert(labels_of_fields(fields@).skip(0) =~= labels_of_fields(fields@));
        }
        res
    }
}

/// Emits the generated `impl` from an analyzed shape, re-attaching the
/// record's generic signature verbatim.
pub fn synthesize(
    name: &String,
    impl_generics: &String,
    ty_generics: &String,
    where_clause: &String,
    info: &ShapeInfo,
) -> (res: String)
    ensures
        res@ == impl_text_with(
            name@,
            impl_generics@,
            ty_generics@,
            where_clause@,
            labels_of_fields(info.fields@),
        ),
{
    let mut s = String::from_str("impl");
    s.append(impl_generics.as_str());
    s.append(" all_eq::AllEq for ");
    s.append(name.as_str());
    s.append(ty_generics.as_str());
    if !where_clause.as_str().is_empty() {
        s.append(" ");
        s.append(where_clause.as_str());
    }
    s.append(" { fn all_eq(&self, other: &");
    s.append(name.as_str());
    s.append(ty_generics.as_str());
    s.append(") -> bool { ");
    let body = comparison_expr(&info.fields);
    s.append(body.as_str());
    s.append(" } }");
    s
}

/// The labels the synthesizer derives from an analysis are exactly the
/// labels the declaration's shape gives rise to.
proof fn lemma_labels_agree(data: DeclData, info: ShapeInfo)
    requires
        crate::decl::analysis_of(data, info),
    ensures
        labels_of_fields(info.fields@) == labels_of_data(data),
{
    match data {
        DeclData::Struct(FieldsDecl::Named(_)) => {
            assert(labels_of_fields(info.fields@) =~= labels_of_data(data));
        },
        DeclData::Struct(FieldsDecl::Unnamed(_)) => {
            assert(labels_of_fields(info.fields@) =~= labels_of_data(data));
        },
        DeclData::Struct(FieldsDecl::Unit) => {
            assert(labels_of_fields(info.fields@) =~= labels_of_data(data));
        },
        _ => {
        },
    }
}

/// Generates the structural-equality `impl` for a declaration: analyzes the
/// shape, then synthesizes the comparison.  Succeeds exactly on struct-like
/// declarations and emits nothing for unsupported (tagged-union) shapes.
pub fn generate_impl(d: &Decl) -> (res: Result<String, GenError>)
    ensures
        crate::decl::supported_shape(d.data) <==> res is Ok,
        res matches Ok(code) ==> code@ == impl_text(*d),
        res matches Err(e) ==> e == GenError::UnsupportedShape,
{
    match analyze(&d.data) {
        Ok(info) => {
            let code = synthesize(&d.name, &d.impl_generics, &d.ty_generics, &d.where_clause, &info);
            proof {
                lemma_labels_agree(d.data, info);
            }
            Ok(code)
        },
        Err(e) => Err(e),
    }
}

} // verus!
