use vstd::prelude::*;
use crate::text::{chars_of, string_of};

verus! {

/// Progress is counted in hundredths of a percent: 10000 is 100%.
pub const PROGRESS_FULL: u32 = 10000;

/// The part of the range spent before any item is converted (10%).
pub const DISPATCH_MILESTONE: u32 = 1000;

/// The part of the range shared among the items (80%).
pub const ITEMS_RANGE: u32 = 8000;

/// Progress after `completed` of `total` items, in hundredths of a percent:
/// the milestone plus `completed / total` of the items' range, rounded to the
/// nearest hundredth (halves up).
pub open spec fn progress_spec(completed: nat, total: nat) -> nat {
    if total == 0 {
        DISPATCH_MILESTONE as nat
    } else {
        DISPATCH_MILESTONE as nat + (ITEMS_RANGE as nat * completed + total / 2) / total
    }
}

/// The progress published once `completed` of `total` items have been converted:
/// the milestone plus an equal share of the remaining range for each item.
pub fn progress_hundredths(completed: usize, total: usize) -> (r: u32)
    requires
        completed <= total,
    ensures
        r as nat == progress_spec(completed as nat, total as nat),
        r <= PROGRESS_FULL,
{
    if total == 0 {
        DISPATCH_MILESTONE
    } else {
        let c = completed as u128;
        let t = total as u128;
        proof {
            lemma_progress_bounded(completed as nat, total as nat);
            assert(8000 * c <= 8000 * t) by (nonlinear_arith)
                requires
                    c <= t,
            ;
        }
        let share = (8000u128 * c + t / 2) / t;
        (1000u128 + share) as u32
    }
}

/// Progress never goes past the completion value of 90%, which lies within 100%.
pub proof fn lemma_progress_bounded(completed: nat, total: nat)
    requires
        completed <= total,
    ensures
        progress_spec(completed, total) <= progress_spec(total, total),
        progress_spec(total, total) <= PROGRESS_FULL as nat,
        total > 0 ==> progress_spec(total, total) == (DISPATCH_MILESTONE + ITEMS_RANGE) as nat,
{
    lemma_progress_monotone(completed, total, total);
    if total > 0 {
        assert((8000 * total + total / 2) / total == 8000) by (nonlinear_arith)
            requires
                total > 0,
        ;
    }
}

/// More completed items never give a smaller progress value.
pub proof fn lemma_progress_monotone(a: nat, b: nat, total: nat)
    requires
        a <= b,
        b <= total,
    ensures
        progress_spec(a, total) <= progress_spec(b, total),
{
    if total > 0 {
        assert((8000 * a + total / 2) / total <= (8000 * b + total / 2) / total) by (nonlinear_arith)
            requires
                a <= b,
                total > 0,
        ;
    }
}


pub open spec fn digit_char(d: nat) -> char {
    if d == 0 { '0' } else if d == 1 { '1' } else if d == 2 { '2' } else if d == 3 { '3' } else if d == 4 { '4' }
    else if d == 5 { '5' } else if d == 6 { '6' } else if d == 7 { '7' } else if d == 8 { '8' } else { '9' }
}

/// The decimal digits of `n`, without leading zeros.
pub open spec fn decimal_digits(n: nat) -> Seq<char>
    decreases n,
{
    if n < 10 {
        seq![digit_char(n)]
    } else {
        decimal_digits(n / 10) + seq![digit_char(n % 10)]
    }
}

/// A progress value in hundredths written as a percentage with two decimals.
pub open spec fn percent_text(hundredths: nat) -> Seq<char> {
    decimal_digits(hundredths / 100) + seq!['.', digit_char((hundredths % 100) / 10), digit_char(hundredths % 10)]
}

/// The progress event sent to a session's sink:
/// `{"progress": <percent>, "filename": "<label>"}`.
pub open spec fn progress_message_spec(hundredths: nat, label: Seq<char>) -> Seq<char> {
    "{\"progress\": "@ + percent_text(hundredths) + ", \"filename\": \""@ + label + "\"}"@
}

fn digit(d: u32) -> (c: char)
    requires
        d < 10,
    ensures
        c == digit_char(d as nat),
{
    if d == 0 { '0' } else if d == 1 { '1' } else if d == 2 { '2' } else if d == 3 { '3' } else if d == 4 { '4' }
    else if d == 5 { '5' } else if d == 6 { '6' } else if d == 7 { '7' } else if d == 8 { '8' } else { '9' }
}

fn push_decimal(out: &mut Vec<char>, n: u32)
    ensures
        final(out)@ == old(out)@ + decimal_digits(n as nat),
    decreases n,
{
    if n >= 10 {
        push_decimal(out, n / 10);
    }
    out.push(digit(n % 10));
    proof {
        assert(final(out)@ =~= old(out)@ + decimal_digits(n as nat));
    }
}

fn push_text(out: &mut Vec<char>, text: &str)
    ensures
        final(out)@ == old(out)@ + text@,
{
    let t = chars_of(text);
    let mut i: usize = 0;
    let ghost base = out@;
    while i < t.len()
        invariant
            i <= t@.len(),
            t@ == text@,
            base == old(out)@,
            out@ == base + t@.subrange(0, i as int),
        decreases t@.len() - i,
    {
        out.push(t[i]);
        i = i + 1;
        assert(out@ =~= base + t@.subrange(0, i as int));
    }
    assert(t@.subrange(0, t@.len() as int) =~= t@);
}

/// A progress event as sent to a session's sink: its text.
#[derive(Clone, Debug)]
pub struct ProgressMessage(pub String);

impl ProgressMessage {
    /// The event for `hundredths` (in hundredths of a percent) and a label.
    pub fn new(hundredths: u32, label: &str) -> (r: Self)
        ensures
            r.0@ == progress_message_spec(hundredths as nat, label@),
    {
        ProgressMessage(progress_message(hundredths, label))
    }
}

/// The text of the progress event for `hundredths` (in hundredths of a
/// percent) with the given label, a filename or a phase name.
pub fn progress_message(hundredths: u32, label: &str) -> (r: String)
    ensures
        r@ == progress_message_spec(hundredths as nat, label@),
{
    let mut out: Vec<char> = Vec::new();
    push_text(&mut out, "{\"progress\": ");
    push_decimal(&mut out, hundredths / 100);
    out.push('.');
    out.push(digit((hundredths % 100) / 10));
    out.push(digit(hundredths % 10));
    push_text(&mut out, ", \"filename\": \"");
    push_text(&mut out, label);
    push_text(&mut out, "\"}");
    assert(out@ =~= progress_message_spec(hundredths as nat, label@));
    string_of(&out)
}

} // verus!
