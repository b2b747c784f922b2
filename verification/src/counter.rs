//! The click counter of the client-side example: the count lives in the
//! `data-counter` attribute of its section, and its button shows it.
use crate::text::{
    all_ascii_digits, decimal, decimal_string, digit_char, digits_value, is_ascii_digit,
    parse_u32, parse_u32_exec,
};
use vstd::prelude::*;
use vstd::string::*;

verus! {

/// The attribute of the counter's section that holds the count.
pub const COUNTER_ATTRIBUTE: &'static str = "data-counter";

/// What the counter shows after a change: the count, the attribute's new
/// text, and the button's label.
pub struct CounterUpdate {
    pub value: u32,
    pub attribute: String,
    pub label: String,
}

/// The label of the button for a count.
pub open spec fn counter_label_spec(n: nat) -> Seq<char> {
    "Increment ("@ + decimal(n) + ")"@
}

/// The count after a click: one more than the attribute's number, counting
/// an attribute that is not a number as zero.
pub open spec fn count_after_click(attribute: Seq<char>) -> int {
    match parse_u32(attribute) {
        Some(v) => v + 1,
        None => 1,
    }
}

/// The label of the button for a count.
pub fn counter_label(n: u32) -> (label: String)
    ensures
        label@ == counter_label_spec(n as nat),
{
    String::from_str("Increment (").concat(decimal_string(n as u64).as_str()).concat(")")
}

/// The counter as the page loads: zero.
pub fn initial_counter() -> (u: CounterUpdate)
    ensures
        u.value == 0,
        u.attribute@ == decimal(0),
        u.label@ == counter_label_spec(0),
{
    CounterUpdate { value: 0, attribute: decimal_string(0), label: counter_label(0) }
}

/// A click: the attribute's number plus one (zero when it is no number),
/// written back as decimal text and shown on the button. The count cannot go
/// past `u32::MAX`.
pub fn click(attribute: &str) -> (u: CounterUpdate)
    requires
        parse_u32(attribute@) != Some(u32::MAX),
    ensures
        u.value == count_after_click(attribute@),
        u.attribute@ == decimal(u.value as nat),
        u.label@ == counter_label_spec(u.value as nat),
{
    let current = match parse_u32_exec(attribute) {
        Some(v) => v,
        None => 0,
    };
    let value = current + 1;
    CounterUpdate { value, attribute: decimal_string(value as u64), label: counter_label(value) }
}

/// Whether the document is still being parsed, so that the counter must wait
/// for `DOMContentLoaded`: its ready state is `loading`.
pub fn dom_still_loading(ready_state: &str) -> (b: bool)
    ensures
        b == (ready_state@ == "loading"@),
{
    let s = String::from_str(ready_state);
    let loading = String::from_str("loading");
    s == loading
}

/// Decimal text consists of digits and reads back as the number it writes.
pub proof fn lemma_decimal_digits(n: nat)
    ensures
        decimal(n).len() > 0,
        decimal(n)[0] != '+',
        all_ascii_digits(decimal(n)),
        digits_value(decimal(n)) == n,
    decreases n,
{
    if n < 10 {
        let s = decimal(n);
        assert(s.drop_last() =~= Seq::<char>::empty());
        assert(digit_char(n) as int == n + 48);
        assert(s.last() == digit_char(n));
        assert(digits_value(s) == digits_value(s.drop_last()) * 10 + (s.last() as int - 48) as nat);
    } else {
        lemma_decimal_digits(n / 10);
        let s = decimal(n);
        let t = decimal(n / 10);
        assert(s.drop_last() =~= t);
        assert(digit_char(n % 10) as int == (n % 10) + 48);
        assert(s.last() == digit_char(n % 10));
        assert(digits_value(s) == digits_value(t) * 10 + (s.last() as int - 48) as nat);
        assert(n == (n / 10) * 10 + n % 10);
        assert(s[0] == t[0]);
        assert forall|i: int| 0 <= i < s.len() implies is_ascii_digit(#[trigger] s[i]) by {
            if i < t.len() {
                assert(s[i] == t[i]);
            }
        }
    }
}

/// The count written to the attribute reads back unchanged, so each click
/// adds exactly one to the count.
pub proof fn lemma_counter_round_trip(n: u32)
    ensures
        parse_u32(decimal(n as nat)) == Some(n),
        n < u32::MAX ==> count_after_click(decimal(n as nat)) == n + 1,
{
    lemma_decimal_digits(n as nat);
}

} // verus!
