//! Decimal text of an event's ordinal, and the summary line built from it.

use vstd::prelude::*;
use vstd::utf8::is_ascii_chars;

verus! {

/// The character that stands for a single decimal digit.
pub open spec fn digit_char(d: nat) -> char {
    if d == 0 {
        '0'
    } else if d == 1 {
        '1'
    } else if d == 2 {
        '2'
    } else if d == 3 {
        '3'
    } else if d == 4 {
        '4'
    } else if d == 5 {
        '5'
    } else if d == 6 {
        '6'
    } else if d == 7 {
        '7'
    } else if d == 8 {
        '8'
    } else {
        '9'
    }
}

/// The digit that a character stands for; characters that are no digit count as zero.
pub open spec fn digit_value(c: char) -> nat {
    if c == '1' {
        1
    } else if c == '2' {
        2
    } else if c == '3' {
        3
    } else if c == '4' {
        4
    } else if c == '5' {
        5
    } else if c == '6' {
        6
    } else if c == '7' {
        7
    } else if c == '8' {
        8
    } else if c == '9' {
        9
    } else {
        0
    }
}

/// A number in decimal notation, most significant digit first, without leading zeros.
pub open spec fn decimal(n: nat) -> Seq<char>
    decreases n,
{
    if n < 10 {
        seq![digit_char(n)]
    } else {
        decimal(n / 10).push(digit_char(n % 10))
    }
}

/// The number that a string of decimal digits denotes.
pub open spec fn decimal_value(text: Seq<char>) -> nat
    decreases text.len(),
{
    if text.len() == 0 {
        0
    } else {
        10 * decimal_value(text.drop_last()) + digit_value(text.last())
    }
}

/// The summary of the event with the given ordinal.
pub open spec fn summary_text(n: nat) -> Seq<char> {
    "test event "@ + decimal(n)
}

/// Reading a number's decimal notation gives the number back.
pub proof fn lemma_decimal_value(n: nat)
    ensures
        decimal_value(decimal(n)) == n,
    decreases n,
{
    if n < 10 {
        let text = decimal(n);
        assert(decimal_value(text.drop_last()) == 0);
    } else {
        let text = decimal(n);
        assert(text.drop_last() =~= decimal(n / 10));
        lemma_decimal_value(n / 10);
    }
}

/// The decimal notation of a number holds digits and nothing else.
pub proof fn lemma_decimal_holds_digits(n: nat)
    ensures
        decimal(n).len() >= 1,
        forall|i: int| 0 <= i < decimal(n).len() ==> '0' <= #[trigger] decimal(n)[i] <= '9',
    decreases n,
{
    if n >= 10 {
        lemma_decimal_holds_digits(n / 10);
    }
}

/// Ten to the power of `k`.
pub open spec fn power_of_ten(k: nat) -> nat
    decreases k,
{
    if k == 0 {
        1
    } else {
        10 * power_of_ten((k - 1) as nat)
    }
}

/// A number below ten to the power of `k` has at most `k` digits.
pub proof fn lemma_decimal_length(n: nat, k: nat)
    requires
        k >= 1,
        n < power_of_ten(k),
    ensures
        decimal(n).len() <= k,
    decreases k,
{
    reveal_with_fuel(power_of_ten, 2);
    if n >= 10 {
        lemma_decimal_length(n / 10, (k - 1) as nat);
    }
}

/// A number that fits 64 bits has at most 20 digits.
pub proof fn lemma_decimal_of_u64(n: nat)
    requires
        n <= u64::MAX,
    ensures
        decimal(n).len() <= 20,
{
    reveal_with_fuel(power_of_ten, 21);
    assert(power_of_ten(20) == 100_000_000_000_000_000_000nat);
    lemma_decimal_length(n, 20);
}

/// A summary is ASCII, and it is as much longer than its fixed words as its
/// ordinal has digits.
pub proof fn lemma_summary_is_ascii(n: nat)
    ensures
        is_ascii_chars(summary_text(n)),
        summary_text(n).len() == 11 + decimal(n).len(),
        forall|i: int|
            0 <= i < summary_text(n).len() ==> {
                let c = #[trigger] summary_text(n)[i];
                c == ' ' || ('0' <= c <= '9') || ('a' <= c <= 'z')
            },
{
    reveal_strlit("test event ");
    lemma_decimal_holds_digits(n);
    let words = "test event "@;
    assert forall|i: int| 0 <= i < summary_text(n).len() implies {
        let c = #[trigger] summary_text(n)[i];
        c == ' ' || ('0' <= c <= '9') || ('a' <= c <= 'z')
    } by {
        if i < 11 {
            assert(summary_text(n)[i] == words[i]);
        } else {
            assert(summary_text(n)[i] == decimal(n)[i - 11]);
        }
    }
}

/// The ordinal that a summary names: the number written after its fixed words.
pub open spec fn summary_ordinal(summary: Seq<char>) -> nat {
    decimal_value(summary.skip("test event "@.len() as int))
}

/// A summary names the ordinal that it was built from.
pub proof fn lemma_summary_ordinal(n: nat)
    ensures
        summary_ordinal(summary_text(n)) == n,
{
    lemma_decimal_value(n);
    assert(summary_text(n).skip("test event "@.len() as int) =~= decimal(n));
}

/// Different ordinals give different summaries.
pub proof fn lemma_summary_injective(a: nat, b: nat)
    requires
        a != b,
    ensures
        summary_text(a) != summary_text(b),
{
    lemma_summary_ordinal(a);
    lemma_summary_ordinal(b);
}

/// The text of a single decimal digit.
fn digit_text(d: u64) -> (text: &'static str)
    requires
        d < 10,
    ensures
        text@ == seq![digit_char(d as nat)],
{
    proof {
        reveal_strlit("0");
        reveal_strlit("1");
        reveal_strlit("2");
        reveal_strlit("3");
        reveal_strlit("4");
        reveal_strlit("5");
        reveal_strlit("6");
        reveal_strlit("7");
        reveal_strlit("8");
        reveal_strlit("9");
    }
    if d == 0 {
        "0"
    } else if d == 1 {
        "1"
    } else if d == 2 {
        "2"
    } else if d == 3 {
        "3"
    } else if d == 4 {
        "4"
    } else if d == 5 {
        "5"
    } else if d == 6 {
        "6"
    } else if d == 7 {
        "7"
    } else if d == 8 {
        "8"
    } else {
        "9"
    }
}

/// Writes a number in decimal notation.
pub fn render_decimal(n: u64) -> (text: String)
    ensures
        text@ == decimal(n as nat),
    decreases n,
{
    if n < 10 {
        String::from_str(digit_text(n))
    } else {
        let mut text = render_decimal(n / 10);
        text.append(digit_text(n % 10));
        text
    }
}

/// Builds the summary of the event with the given ordinal.
pub fn summary_for(n: u64) -> (summary: String)
    ensures
        summary@ == summary_text(n as nat),
{
    let mut summary = String::from_str("test event ");
    let digits = render_decimal(n);
    summary.append(digits.as_str());
    summary
}

} // verus!
