//! Decimal numerals: the tokens that stand for a count or a position.
//!
//! A numeral is one or more of the digits `0` to `9`, which a single `+`
//! may precede. Leading zeros are allowed; a `-`, a blank or any other
//! character is not.

use vstd::prelude::*;
use vstd::string::*;

verus! {

/// `c` is one of the ten decimal digits.
pub open spec fn is_digit(c: char) -> bool {
    '0' <= c && c <= '9'
}

/// The number a digit stands for, and 0 for any other character.
pub open spec fn digit_value(c: char) -> nat {
    if is_digit(c) {
        (c as int - '0' as int) as nat
    } else {
        0
    }
}

/// The number that a run of digits stands for, read in base ten.
pub open spec fn digits_value(s: Seq<char>) -> nat
    decreases s.len(),
{
    if s.len() == 0 {
        0
    } else {
        digits_value(s.drop_last()) * 10 + digit_value(s.last())
    }
}

/// The token without its leading `+`, if it has one.
pub open spec fn unsigned_part(s: Seq<char>) -> Seq<char> {
    if s.len() > 0 && s[0] == '+' {
        s.drop_first()
    } else {
        s
    }
}

/// `s` is a numeral: at least one digit, after at most one `+`.
pub open spec fn is_numeral(s: Seq<char>) -> bool {
    let d = unsigned_part(s);
    d.len() > 0 && forall|i: int| 0 <= i < d.len() ==> is_digit(#[trigger] d[i])
}

/// The number that the numeral `s` stands for.
pub open spec fn numeral_value(s: Seq<char>) -> nat {
    digits_value(unsigned_part(s))
}

/// Reading more digits never makes the number smaller.
pub proof fn lemma_digits_value_prefix(s: Seq<char>, k: int)
    requires
        0 <= k <= s.len(),
    ensures
        digits_value(s.take(k)) <= digits_value(s),
    decreases s.len(),
{
    if k == s.len() {
        assert(s.take(k) =~= s);
    } else {
        assert(s.drop_last().take(k) =~= s.take(k));
        lemma_digits_value_prefix(s.drop_last(), k);
    }
}

/// Reads a numeral that stands for a number up to `max`.
///
/// Returns `None` for a token that is no numeral, and for a numeral whose
/// value is above `max`, however long it is.
pub fn parse_number(token: &str, max: u64) -> (number: Option<u64>)
    ensures
        number is Some <==> is_numeral(token@) && numeral_value(token@) <= max,
        number matches Some(n) ==> n == numeral_value(token@),
{
    let ghost digits = unsigned_part(token@);
    let ghost start = token@.len() - digits.len();
    let mut first = true;
    let mut any = false;
    let mut acc: u64 = 0;
    for c in it: token.chars()
        invariant
            it.seq() == token@,
            digits == unsigned_part(token@),
            start == token@.len() - digits.len(),
            first == (it.index() == 0),
            any == (it.index() > start),
            !any ==> acc == 0,
            any ==> acc as nat == digits_value(digits.take(it.index() - start)),
            forall|j: int| 0 <= j < it.index() - start ==> is_digit(#[trigger] digits[j]),
            acc <= max,
    {
        let ghost k = it.index() - start;
        if first && c == '+' {
            first = false;
        } else {
            first = false;
            assert(c == digits[k]);
            if !(c >= '0' && c <= '9') {
                return None;
            }
            let d: u64 = (c as u64) - ('0' as u64);
            assert(digits_value(digits.take(k)) == acc);
            assert(digits.take(k + 1).drop_last() =~= digits.take(k));
            let next: u128 = (acc as u128) * 10 + (d as u128);
            if next > max as u128 {
                proof {
                    lemma_digits_value_prefix(digits, k + 1);
                }
                return None;
            }
            acc = next as u64;
            any = true;
        }
    }
    if any {
        assert(digits.take(digits.len() as int) =~= digits);
        Some(acc)
    } else {
        None
    }
}

/// The character for a digit's value; meant for values below ten.
pub open spec fn digit_char(d: nat) -> char {
    ('0' as nat + d) as char
}

/// `n` written in base ten: no sign, and no leading zero but for 0
/// itself.
pub open spec fn decimal(n: nat) -> Seq<char>
    decreases n,
{
    if n < 10 {
        seq![digit_char(n)]
    } else {
        decimal(n / 10).push(digit_char(n % 10))
    }
}

/// What `decimal` writes is a numeral, and reading it gives the number
/// back.
pub proof fn lemma_decimal_reads_back(n: nat)
    ensures
        decimal(n).len() > 0,
        forall|i: int| 0 <= i < decimal(n).len() ==> is_digit(#[trigger] decimal(n)[i]),
        digits_value(decimal(n)) == n,
        is_numeral(decimal(n)),
        numeral_value(decimal(n)) == n,
    decreases n,
{
    if n >= 10 {
        lemma_decimal_reads_back(n / 10);
        assert(decimal(n).drop_last() =~= decimal(n / 10));
    } else {
        assert(digits_value(decimal(n).drop_last()) == 0);
    }
    assert(digit_value(digit_char(n % 10)) == n % 10);
}

/// The one-character text of a digit.
fn digit_text(d: u64) -> (text: &'static str)
    requires
        d < 10,
    ensures
        text@ == seq![digit_char(d as nat)],
{
    proof {
        reveal_strlit("0");
        reveal_strlit("1");
        reveal_strlit("2");
        reveal_strlit("3");
        reveal_strlit("4");
        reveal_strlit("5");
        reveal_strlit("6");
        reveal_strlit("7");
        reveal_strlit("8");
        reveal_strlit("9");
    }
    match d {
        0 => "0",
        1 => "1",
        2 => "2",
        3 => "3",
        4 => "4",
        5 => "5",
        6 => "6",
        7 => "7",
        8 => "8",
        _ => "9",
    }
}

/// Writes `n` in base ten.
pub fn decimal_text(n: u64) -> (text: String)
    ensures
        text@ == decimal(n as nat),
    decreases n,
{
    if n < 10 {
        String::from_str(digit_text(n))
    } else {
        let mut text = decimal_text(n / 10);
        text.append(digit_text(n % 10));
        text
    }
}

} // verus!
