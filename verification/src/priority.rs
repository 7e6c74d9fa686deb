//! The priority value that heads every message.

use vstd::prelude::*;
use crate::ascii::{GREATER, LESS, ZERO};
use crate::decimal::{decimal, decimal_value, is_digit, lemma_decimal_is_plain, push_decimal};
use crate::facility::Facility;
use crate::severity::Severity;

verus! {

/// A facility and a severity combined into one number.
pub type Priority = u8;

/// The priority of a message: eight times the facility's code, plus the
/// severity's code.
pub open spec fn priority_value(facility: Facility, severity: Severity) -> int {
    facility.spec_code() * 8 + severity.spec_code()
}

/// Combines a severity and a facility into the priority value.
pub fn encode_priority(severity: Severity, facility: Facility) -> (priority: Priority)
    ensures
        priority == priority_value(facility, severity),
        priority <= 191,
{
    facility.code() * 8 + severity.code()
}

/// The field that opens every line: the priority in decimal, between angle
/// brackets.
pub open spec fn priority_field(priority: nat) -> Seq<u8> {
    seq![LESS] + decimal(priority) + seq![GREATER]
}

/// Appends the priority field for `severity` and `facility` to `out`.
pub fn push_priority(out: &mut Vec<u8>, severity: Severity, facility: Facility)
    ensures
        final(out)@ == old(out)@ + priority_field(priority_value(facility, severity) as nat),
{
    out.push(LESS);
    push_decimal(out, encode_priority(severity, facility) as u64);
    out.push(GREATER);
}

/// The priority field holds the priority as it is, in decimal and without
/// padding: between the brackets stand digits only, at most three, with a
/// leading zero only for zero itself, and they read back as the priority.
pub proof fn lemma_priority_field_is_verbatim(facility: Facility, severity: Severity)
    ensures
        ({
            let priority = priority_value(facility, severity) as nat;
            let field = priority_field(priority);
            let digits = field.subrange(1, field.len() - 1);
            &&& priority == facility.spec_code() * 8 + severity.spec_code()
            &&& 3 <= field.len() <= 5
            &&& field.first() == LESS
            &&& field.last() == GREATER
            &&& digits == decimal(priority)
            &&& forall|i: int| 0 <= i < digits.len() ==> is_digit(#[trigger] digits[i])
            &&& digits[0] == ZERO <==> priority == 0
            &&& decimal_value(digits) == priority
        }),
{
    let priority = priority_value(facility, severity) as nat;
    let field = priority_field(priority);
    lemma_decimal_is_plain(priority);
    reveal_with_fuel(decimal, 3);
    assert(field.subrange(1, field.len() - 1) =~= decimal(priority));
}

/// A priority lies in `0..=191` and determines both the facility and the
/// severity it was made from.
pub proof fn lemma_priority_is_injective(f1: Facility, s1: Severity, f2: Facility, s2: Severity)
    ensures
        0 <= priority_value(f1, s1) <= 191,
        priority_value(f1, s1) / 8 == f1.spec_code(),
        priority_value(f1, s1) % 8 == s1.spec_code(),
        priority_value(f1, s1) == priority_value(f2, s2) ==> f1 == f2 && s1 == s2,
{
}

} // verus!
