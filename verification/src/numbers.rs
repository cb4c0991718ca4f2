//! Decimal numerals: rendering an index for the selection menu and
//! parsing a 1-based selection typed by the user.
//!
//! A selection is parsed the way the menu loop treats it: an optional
//! leading `+`, then decimal digits; anything else, an empty numeral,
//! or a value that does not fit in `usize` all collapse to `0`, which
//! every caller rejects as out of range.

use vstd::prelude::*;
use vstd::string::StrSliceExecFns;
use vstd::string::StringExecFns;

verus! {

/// The digit character for a value below ten.
pub open spec fn digit_char(d: int) -> char {
    if d == 0 {
        '0'
    } else if d == 1 {
        '1'
    } else if d == 2 {
        '2'
    } else if d == 3 {
        '3'
    } else if d == 4 {
        '4'
    } else if d == 5 {
        '5'
    } else if d == 6 {
        '6'
    } else if d == 7 {
        '7'
    } else if d == 8 {
        '8'
    } else {
        '9'
    }
}

/// The decimal numeral of a non-negative number, most significant
/// digit first, with no sign and no leading zero except for `0`
/// itself.
pub open spec fn dec_digits(n: int) -> Seq<char>
    decreases n,
{
    if n < 10 {
        seq![digit_char(n)]
    } else {
        dec_digits(n / 10).push(digit_char(n % 10))
    }
}

/// Whether every character of `s` is a decimal digit and there is at
/// least one.
pub open spec fn is_dec_digits(s: Seq<char>) -> bool {
    s.len() > 0 && forall|i: int| 0 <= i < s.len() ==> '0' <= #[trigger] s[i] && s[i] <= '9'
}

/// The value of a sequence of digit characters, most significant
/// first.
pub open spec fn digits_value(s: Seq<char>) -> int
    decreases s.len(),
{
    if s.len() == 0 {
        0
    } else {
        digits_value(s.drop_last()) * 10 + (s.last() as int - '0' as int)
    }
}

/// How a typed selection is read: strip one optional leading `+`;
/// if what remains is a non-empty run of digits whose value fits in
/// `usize`, that value; otherwise `0`.
pub open spec fn parse_selection_spec(s: Seq<char>) -> int {
    let body = if s.len() > 0 && s[0] == '+' { s.skip(1) } else { s };
    if is_dec_digits(body) && digits_value(body) <= usize::MAX as int {
        digits_value(body)
    } else {
        0
    }
}

/// The value of a run of digit characters is never negative.
pub proof fn lemma_digits_value_nonneg(s: Seq<char>)
    requires
        forall|i: int| 0 <= i < s.len() ==> '0' <= #[trigger] s[i] && s[i] <= '9',
    ensures
        digits_value(s) >= 0,
    decreases s.len(),
{
    if s.len() > 0 {
        lemma_digits_value_nonneg(s.drop_last());
    }
}

/// Appending further digits never shrinks the value: the whole run is
/// worth at least any of its prefixes.
pub proof fn lemma_digits_value_grows(s: Seq<char>, k: int)
    requires
        0 <= k <= s.len(),
        forall|i: int| 0 <= i < s.len() ==> '0' <= #[trigger] s[i] && s[i] <= '9',
    ensures
        digits_value(s) >= digits_value(s.take(k)),
    decreases s.len() - k,
{
    if k == s.len() {
        assert(s.take(k) =~= s);
    } else {
        lemma_digits_value_grows(s, k + 1);
        assert(s.take(k + 1).drop_last() =~= s.take(k));
        assert(s.take(k + 1).last() == s[k]);
        lemma_digits_value_nonneg(s.take(k));
    }
}

/// Renders a number as its decimal numeral.
pub fn usize_to_string(n: usize) -> (r: String)
    ensures
        r@ == dec_digits(n as int),
    decreases n,
{
    if n < 10 {
        let r = String::from_str(digit_str(n));
        proof {
            assert(r@ =~= dec_digits(n as int));
        }
        r
    } else {
        let mut r = usize_to_string(n / 10);
        r.append(digit_str(n % 10));
        proof {
            assert(r@ =~= dec_digits(n as int / 10).push(digit_char(n as int % 10)));
        }
        r
    }
}

/// The one-character string for a value below ten.
fn digit_str(d: usize) -> (r: &'static str)
    requires
        d < 10,
    ensures
        r@ =~= seq![digit_char(d as int)],
{
    proof {
        reveal_strlit("0");
        reveal_strlit("1");
        reveal_strlit("2");
        reveal_strlit("3");
        reveal_strlit("4");
        reveal_strlit("5");
        reveal_strlit("6");
        reveal_strlit("7");
        reveal_strlit("8");
        reveal_strlit("9");
    }
    match d {
        0 => "0",
        1 => "1",
        2 => "2",
        3 => "3",
        4 => "4",
        5 => "5",
        6 => "6",
        7 => "7",
        8 => "8",
        _ => "9",
    }
}

/// Reads a typed selection as [`parse_selection_spec`] says: the
/// digits' value when they are well formed and fit in `usize`, and
/// `0` for everything else.
pub fn parse_selection(line: &str) -> (n: usize)
    ensures
        n as int == parse_selection_spec(line@),
{
    let len = line.unicode_len();
    let has_plus = if len > 0 { line.get_char(0) == '+' } else { false };
    let start: usize = if has_plus { 1 } else { 0 };
    let ghost body: Seq<char> = if has_plus { line@.skip(1) } else { line@ };
    if len == start {
        proof {
            assert(body.len() == 0);
        }
        return 0;
    }
    let mut acc: u128 = 0;
    let mut i: usize = start;
    while i < len
        invariant
            start <= i <= len,
            len == line@.len(),
            start == 1 <==> (line@.len() > 0 && line@[0] == '+'),
            start <= 1,
            body == (if start == 1 { line@.skip(1) } else { line@ }),
            start < len,
            forall|j: int| 0 <= j < i - start ==> '0' <= #[trigger] body[j] && body[j] <= '9',
            acc as int == digits_value(body.take(i - start)),
            acc <= usize::MAX as u128,
        decreases len - i,
    {
        let ghost k: int = i - start;
        let c = line.get_char(i);
        proof {
            assert(body[k] == line@[i as int]);
        }
        if c < '0' || c > '9' {
            proof {
                assert(!is_dec_digits(body));
            }
            return 0;
        }
        let d: u32 = c as u32 - '0' as u32;
        let next: u128 = acc * 10 + d as u128;
        proof {
            assert(body.take(k + 1).drop_last() =~= body.take(k));
            assert(body.take(k + 1).last() == body[k]);
            assert(digits_value(body.take(k + 1)) == digits_value(body.take(k)) * 10 + (
            body[k] as int - '0' as int));
            assert(next as int == digits_value(body.take(k + 1)));
        }
        if next > usize::MAX as u128 {
            proof {
                if is_dec_digits(body) {
                    lemma_digits_value_grows(body, k + 1);
                    assert(digits_value(body) > usize::MAX as int);
                }
            }
            return 0;
        }
        acc = next;
        i = i + 1;
    }
    proof {
        assert(body.take(len - start) =~= body);
        assert(is_dec_digits(body));
    }
    acc as usize
}

} // verus!
