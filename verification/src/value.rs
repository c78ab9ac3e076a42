//! The runtime meaning of a generated comparison, and its laws.
//!
//! A record value is modeled as its ordered field slots, each a plain field
//! value.  The generated comparison of two instances of one record type is
//! the conjunction of per-field equalities, evaluated in declaration order
//! and stopping at the first unequal pair; that meaning, and the laws it
//! obeys, are stated and proved here.

use crate::decl::Accessor;
use crate::AllEq;
use vstd::prelude::*;

verus! {

/// A plain field value, compared by its own (structural) equality.
#[derive(Debug)]
pub enum FieldValue {
    Int(u64),
    Text(String),
    Flag(bool),
}

/// One field of a record value: its accessor and its value.
#[derive(Debug)]
pub struct FieldSlot {
    pub accessor: Accessor,
    pub value: FieldValue,
}

/// A record value: its field slots in declaration order.
#[derive(Debug)]
pub struct RecordValue {
    pub fields: Vec<FieldSlot>,
}

/// Equality of two field values under the field type's own equality.
pub open spec fn fv_eq(a: FieldValue, b: FieldValue) -> bool {
    match (a, b) {
        (FieldValue::Int(x), FieldValue::Int(y)) => x == y,
        (FieldValue::Text(x), FieldValue::Text(y)) => x@ == y@,
        (FieldValue::Flag(x), FieldValue::Flag(y)) => x == y,
        _ => false,
    }
}

/// The generated comparison: true exactly when both records have the same
/// field count and every field of `a` equals the corresponding field of `b`
/// under that field's own equality.
pub open spec fn rec_compare(a: Seq<FieldSlot>, b: Seq<FieldSlot>) -> bool {
    &&& a.len() == b.len()
    &&& forall|i: int| 0 <= i < a.len() ==> fv_eq(#[trigger] a[i].value, b[i].value)
}

/// How many per-field comparisons a left-to-right short-circuiting
/// evaluation performs, starting from field `i`.
pub open spec fn evals_from(a: Seq<FieldSlot>, b: Seq<FieldSlot>, i: int) -> nat
    decreases a.len() - i,
{
    if i < 0 || i >= a.len() || i >= b.len() {
        0
    } else if !fv_eq(a[i].value, b[i].value) {
        1
    } else {
        1 + evals_from(a, b, i + 1)
    }
}

/// How many per-field comparisons the generated comparison performs in all:
/// none when the field counts differ (never the case for two instances of
/// one record type), else one per field up to and including the first
/// unequal pair.
pub open spec fn evals(a: Seq<FieldSlot>, b: Seq<FieldSlot>) -> nat {
    if a.len() == b.len() {
        evals_from(a, b, 0)
    } else {
        0
    }
}

/// Compares two field values under the field type's own equality.
pub fn field_value_eq(a: &FieldValue, b: &FieldValue) -> (r: bool)
    ensures
        r == fv_eq(*a, *b),
{
    match (a, b) {
        (FieldValue::Int(x), FieldValue::Int(y)) => *x == *y,
        (FieldValue::Text(x), FieldValue::Text(y)) => x.eq(y),
        (FieldValue::Flag(x), FieldValue::Flag(y)) => *x == *y,
        _ => false,
    }
}

/// When every field up to `i` compares equal, the comparisons already
/// performed number exactly `i`.
proof fn lemma_evals_prefix(a: Seq<FieldSlot>, b: Seq<FieldSlot>, k: int, i: int)
    requires
        a.len() == b.len(),
        0 <= k <= i <= a.len(),
        forall|j: int| k <= j < i ==> fv_eq(#[trigger] a[j].value, b[j].value),
    ensures
        evals_from(a, b, k) == i - k + evals_from(a, b, i),
    decreases i - k,
{
    if k < i {
        lemma_evals_prefix(a, b, k + 1, i);
    }
}

/// Evaluates the generated comparison, also reporting how many per-field
/// comparisons were performed: evaluation is in declaration order and stops
/// at the first unequal pair.
pub fn compare_counted(a: &RecordValue, b: &RecordValue) -> (r: (bool, usize))
    ensures
        r.0 == rec_compare(a.fields@, b.fields@),
        r.1 == evals(a.fields@, b.fields@),
{
    let n = a.fields.len();
    if n != b.fields.len() {
        return (false, 0);
    }
    let mut i: usize = 0;
    while i < n
        invariant
            n == a.fields@.len(),
            n == b.fields@.len(),
            i <= n,
            forall|j: int| 0 <= j < i ==> fv_eq(#[trigger] a.fields@[j].value, b.fields@[j].value),
        decreases n - i,
    {
        if !field_value_eq(&a.fields[i].value, &b.fields[i].value) {
            proof {
                lemma_evals_prefix(a.fields@, b.fields@, 0, i as int);
            }
            return (false, i + 1);
        }
        i = i + 1;
    }
    proof {
        lemma_evals_prefix(a.fields@, b.fields@, 0, n as int);
    }
    (true, n)
}

/// Evaluates the generated comparison of two record values.
pub fn compare(a: &RecordValue, b: &RecordValue) -> (r: bool)
    ensures
        r == rec_compare(a.fields@, b.fields@),
{
    compare_counted(a, b).0
}

impl PartialEq for RecordValue {
    fn eq(&self, other: &Self) -> (r: bool) {
        compare(self, other)
    }
}

impl vstd::std_specs::cmp::PartialEqSpecImpl for RecordValue {
    open spec fn obeys_eq_spec() -> bool {
        true
    }

    open spec fn eq_spec(&self, other: &Self) -> bool {
        rec_compare(self.fields@, other.fields@)
    }
}

impl AllEq for RecordValue {
    fn all_eq(&self, other: &Self) -> (r: bool)
        ensures
            r == rec_compare(self.fields@, other.fields@),
    {
        compare(self, other)
    }
}

/// Reflexivity: the generated comparison accepts any record value against
/// itself, because each field's own equality is reflexive.
pub proof fn lemma_reflexive(a: Seq<FieldSlot>)
    ensures
        rec_compare(a, a),
{
}

/// Symmetry: the generated comparison does not depend on operand order,
/// because each field's own equality is symmetric.
pub proof fn lemma_symmetric(a: Seq<FieldSlot>, b: Seq<FieldSlot>)
    ensures
        rec_compare(a, b) == rec_compare(b, a),
{
}

/// Zero-field records: the generated comparison is the empty conjunction,
/// true for any two instances.
pub proof fn lemma_zero_fields(a: Seq<FieldSlot>, b: Seq<FieldSlot>)
    requires
        a.len() == 0,
        b.len() == 0,
    ensures
        rec_compare(a, b),
{
}

/// A primary equality that a type may override: it compares only the fields
/// whose indices lie in `keys`, ignoring all others.
pub open spec fn primary_eq(a: Seq<FieldSlot>, b: Seq<FieldSlot>, keys: Set<int>) -> bool {
    &&& a.len() == b.len()
    &&& forall|i: int|
        0 <= i < a.len() && keys.contains(i) ==> fv_eq(#[trigger] a[i].value, b[i].value)
}

/// Independence from custom equality: two record values that agree on every
/// field the overridden primary equality looks at, but differ in a field it
/// ignores, are equal under the primary equality and still distinguished by
/// the generated comparison.
pub proof fn lemma_independent_of_primary(
    a: Seq<FieldSlot>,
    b: Seq<FieldSlot>,
    keys: Set<int>,
    j: int,
)
    requires
        a.len() == b.len(),
        0 <= j < a.len(),
        !keys.contains(j),
        !fv_eq(a[j].value, b[j].value),
        forall|i: int|
            0 <= i < a.len() && keys.contains(i) ==> fv_eq(#[trigger] a[i].value, b[i].value),
    ensures
        primary_eq(a, b, keys),
        !rec_compare(a, b),
{
}

/// Evaluation is in declaration order and stops at the first unequal pair:
/// when the fields before `k` agree and the fields at `k` differ, exactly
/// `k + 1` per-field comparisons are performed.
pub proof fn lemma_stops_at_first_mismatch(a: Seq<FieldSlot>, b: Seq<FieldSlot>, k: int)
    requires
        a.len() == b.len(),
        0 <= k < a.len(),
        forall|j: int| 0 <= j < k ==> fv_eq(#[trigger] a[j].value, b[j].value),
        !fv_eq(a[k].value, b[k].value),
    ensures
        evals(a, b) == k + 1,
{
    lemma_evals_prefix(a, b, 0, k);
}

/// Short-circuiting: when the first fields already differ, exactly one
/// per-field comparison is performed; later fields' comparators never run.
pub proof fn lemma_short_circuit(a: Seq<FieldSlot>, b: Seq<FieldSlot>)
    requires
        a.len() == b.len(),
        a.len() >= 1,
        !fv_eq(a[0].value, b[0].value),
    ensures
        evals(a, b) == 1,
{
    lemma_stops_at_first_mismatch(a, b, 0);
}

} // verus!
