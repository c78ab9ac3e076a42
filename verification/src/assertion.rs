//! The assertion over the generated comparison.
//!
//! Both operands are evaluated once by the caller and handed in; the
//! generated comparison decides the outcome.  On a pass nothing is
//! observable; on a mismatch the outcome carries a fatal failure message
//! that renders both operands in full, optionally extended with a custom
//! message built only on the failure path.  Raising the error itself is the
//! caller's terminal, non-recoverable step.

use crate::digits::{dec_seq, u64_to_dec};
use crate::synth::{acc_label, accessor_label};
use crate::value::{compare, rec_compare, FieldSlot, FieldValue, RecordValue};
use vstd::prelude::*;
use vstd::string::StringExecFns;

verus! {

/// The rendering of one field value: decimal for integers, `true`/`false`
/// for flags, the text in double quotes for strings.
pub open spec fn fv_text(v: FieldValue) -> Seq<char> {
    match v {
        FieldValue::Int(n) => dec_seq(n as nat),
        FieldValue::Flag(b) => if b {
            "true"@
        } else {
            "false"@
        },
        FieldValue::Text(s) => "\""@ + s@ + "\""@,
    }
}

/// The rendering of one field slot: its accessor label, then its value.
pub open spec fn slot_text(s: FieldSlot) -> Seq<char> {
    acc_label(s.accessor) + ": "@ + fv_text(s.value)
}

/// The renderings of all slots, comma-separated, in declaration order.
pub open spec fn slots_text(fs: Seq<FieldSlot>) -> Seq<char>
    decreases fs.len(),
{
    if fs.len() == 0 {
        Seq::empty()
    } else if fs.len() == 1 {
        slot_text(fs[0])
    } else {
        slot_text(fs[0]) + ", "@ + slots_text(fs.skip(1))
    }
}

/// The best-effort human-readable rendering of a whole record value.
pub open spec fn render_text(v: RecordValue) -> Seq<char> {
    if v.fields@.len() == 0 {
        "{}"@
    } else {
        "{ "@ + slots_text(v.fields@) + " }"@
    }
}

/// The failure message: both operands rendered in full.
pub open spec fn fail_text(l: RecordValue, r: RecordValue) -> Seq<char> {
    "assertion failed: (left == right)\n  left: "@ + render_text(l) + "\n right: "@ + render_text(
        r,
    )
}

/// The outcome of one assertion: either nothing observable, or the fatal
/// failure message to raise.
pub enum AssertOutcome {
    Pass,
    Fail(String),
}

/// Renders one field value.
pub fn value_text(v: &FieldValue) -> (res: String)
    ensures
        res@ == fv_text(*v),
{
    match v {
        FieldValue::Int(n) => u64_to_dec(*n),
        FieldValue::Flag(b) => {
            if *b {
                String::from_str("true")
            } else {
                String::from_str("false")
            }
        },
        FieldValue::Text(s) => {
            let mut t = String::from_str("\"");
            t.append(s.as_str());
            t.append("\"");
            t
        },
    }
}

/// Renders one field slot.
fn slot_string(s: &FieldSlot) -> (res: String)
    ensures
        res@ == slot_text(*s),
{
    let mut t = accessor_label(&s.accessor);
    t.append(": ");
    let v = value_text(&s.value);
    t.append(v.as_str());
    t
}

/// Renders the slots `fields[i..]`, comma-separated.
fn slots_from(fields: &Vec<FieldSlot>, i: usize) -> (res: String)
    requires
        i < fields@.len(),
    ensures
        res@ == slots_text(fields@.skip(i as int)),
    decreases fields@.len() - i,
{
    let n = fields.len();
    let mut s = slot_string(&fields[i]);
    if i + 1 == n {
        proof {
            assert(fields@.skip(i as int).len() == 1);
            assert(fields@.skip(i as int)[0] == fields@[i as int]);
        }
        s
    } else {
        s.append(", ");
        let rest = slots_from(fields, i + 1);
        s.append(rest.as_str());
        proof {
            assert(fields@.skip(i as int)[0] == fields@[i as int]);
            assert(fields@.skip(i as int).skip(1) =~= fields@.skip(i as int + 1));
        }
        s
    }
}

/// Renders a whole record value.
pub fn render(v: &RecordValue) -> (res: String)
    ensures
        res@ == render_text(*v),
{
    if v.fields.len() == 0 {
        String::from_str("{}")
    } else {
        let mut s = String::from_str("{ ");
        let body = slots_from(&v.fields, 0);
        proof {
            assert(v.fields@.skip(0) =~= v.fields@);
        }
        s.append(body.as_str());
        s.append(" }");
        s
    }
}

/// Builds the failure message for two mismatched operands.
fn fail_message(l: &RecordValue, r: &RecordValue) -> (res: String)
    ensures
        res@ == fail_text(*l, *r),
{
    let mut m = String::from_str("assertion failed: (left == right)\n  left: ");
    let rl = render(l);
    m.append(rl.as_str());
    m.append("\n right: ");
    let rr = render(r);
    m.append(rr.as_str());
    m
}

/// The assertion: passes exactly when the generated comparison accepts the
/// two operands; on a mismatch the outcome carries the full failure
/// message, built only on that path.
pub fn check_all_eq(l: &RecordValue, r: &RecordValue) -> (res: AssertOutcome)
    ensures
        res is Pass <==> rec_compare(l.fields@, r.fields@),
        res matches AssertOutcome::Fail(m) ==> m@ == fail_text(*l, *r),
{
    if compare(l, r) {
        AssertOutcome::Pass
    } else {
        AssertOutcome::Fail(fail_message(l, r))
    }
}

/// Asserting a value against itself always passes: the comparison is
/// reflexive, so by the contracts of [`check_all_eq`] and
/// [`check_all_eq_with`] the outcome on `(x, x)` is `Pass` and the custom
/// message callback is never invoked.
pub proof fn lemma_self_assertion_passes(x: RecordValue)
    ensures
        rec_compare(x.fields@, x.fields@),
{
    crate::value::lemma_reflexive(x.fields@);
}

/// The assertion with a custom message: the message callback is invoked
/// only on the failure path, so a passing assertion never pays for (nor
/// observes) the construction of the custom message; on a mismatch its
/// result is appended to the failure message after `: `.
pub fn check_all_eq_with<F: FnOnce() -> String>(l: &RecordValue, r: &RecordValue, msg: F) -> (res:
    AssertOutcome)
    requires
        call_requires(msg, ()),
    ensures
        res is Pass <==> rec_compare(l.fields@, r.fields@),
        res matches AssertOutcome::Fail(m) ==> exists|s: String|
            call_ensures(msg, (), s) && m@ == fail_text(*l, *r) + ": "@ + s@,
{
    if compare(l, r) {
        AssertOutcome::Pass
    } else {
        let custom = msg();
        let mut m = fail_message(l, r);
        m.append(": ");
        m.append(custom.as_str());
        proof {
            assert(call_ensures(msg, (), custom) && m@ == fail_text(*l, *r) + ": "@ + custom@);
        }
        AssertOutcome::Fail(m)
    }
}

} // verus!
