//! Decimal numerals: the mapping between unsigned heights and their decimal
//! string form, with the round-trip proof used by the codec.

use vstd::prelude::*;
use vstd::arithmetic::div_mod::lemma_fundamental_div_mod;

verus! {

/// The character for a single decimal digit.
pub open spec fn digit_char(d: nat) -> char {
    if d == 0 {
        '0'
    } else if d == 1 {
        '1'
    } else if d == 2 {
        '2'
    } else if d == 3 {
        '3'
    } else if d == 4 {
        '4'
    } else if d == 5 {
        '5'
    } else if d == 6 {
        '6'
    } else if d == 7 {
        '7'
    } else if d == 8 {
        '8'
    } else {
        '9'
    }
}

pub open spec fn is_digit(c: char) -> bool {
    '0' <= c && c <= '9'
}

/// The numeric value of a digit character.
pub open spec fn digit_val(c: char) -> nat
    recommends
        is_digit(c),
{
    (c as u32 - '0' as u32) as nat
}

/// The canonical decimal string of a number: no sign, no leading zeros
/// (except for the single digit of zero itself).
pub open spec fn dec_string(n: nat) -> Seq<char>
    decreases n,
{
    if n < 10 {
        seq![digit_char(n)]
    } else {
        dec_string(n / 10).push(digit_char(n % 10))
    }
}

pub open spec fn all_digits(s: Seq<char>) -> bool {
    forall|i: int| 0 <= i < s.len() ==> is_digit(#[trigger] s[i])
}

/// The value of a digit string, most significant digit first.
pub open spec fn dec_value(s: Seq<char>) -> nat
    decreases s.len(),
{
    if s.len() == 0 {
        0
    } else {
        dec_value(s.drop_last()) * 10 + digit_val(s.last())
    }
}

/// What parsing a decimal string yields: a value exactly when the string is a
/// non-empty, all-digit numeral whose value fits in a `u64`; leading zeros
/// are accepted.
pub open spec fn parse_dec(s: Seq<char>) -> Option<u64> {
    if s.len() > 0 && all_digits(s) && dec_value(s) <= u64::MAX {
        Some(dec_value(s) as u64)
    } else {
        None
    }
}

proof fn lemma_dec_string_digits(n: nat)
    ensures
        dec_string(n).len() >= 1,
        all_digits(dec_string(n)),
    decreases n,
{
    if n >= 10 {
        lemma_dec_string_digits(n / 10);
        assert forall|i: int| 0 <= i < dec_string(n).len() implies is_digit(
            #[trigger] dec_string(n)[i],
        ) by {
            if i < dec_string(n / 10).len() {
                assert(dec_string(n)[i] == dec_string(n / 10)[i]);
            }
        }
    }
}

proof fn lemma_digit_val_digit_char(d: nat)
    requires
        d < 10,
    ensures
        digit_val(digit_char(d)) == d,
{
    assert('0' as u32 == 48);
    assert('9' as u32 == 57);
}

proof fn lemma_dec_value_dec_string(n: nat)
    ensures
        dec_value(dec_string(n)) == n,
    decreases n,
{
    if n < 10 {
        let s = dec_string(n);
        assert(s == seq![digit_char(n)]);
        assert(s.len() == 1);
        assert(s.last() == digit_char(n));
        assert(s.drop_last() =~= Seq::<char>::empty());
        assert(dec_value(s.drop_last()) == 0);
        lemma_digit_val_digit_char(n);
        assert(dec_value(s) == 0 * 10 + digit_val(digit_char(n)));
    } else {
        let s = dec_string(n);
        assert(s == dec_string(n / 10).push(digit_char(n % 10)));
        assert(s.last() == digit_char(n % 10));
        lemma_digit_val_digit_char(n % 10);
        lemma_dec_value_dec_string(n / 10);
        assert(s.drop_last() =~= dec_string(n / 10));
        assert(dec_value(s) == dec_value(dec_string(n / 10)) * 10 + digit_val(
            digit_char(n % 10),
        ));
        assert(dec_value(s) == (n / 10) * 10 + (n % 10));
        lemma_fundamental_div_mod(n as int, 10);
    }
}

/// Formatting a value and parsing the result gives the value back.
pub proof fn lemma_parse_dec_string(n: u64)
    ensures
        parse_dec(dec_string(n as nat)) == Some(n),
{
    lemma_dec_string_digits(n as nat);
    lemma_dec_value_dec_string(n as nat);
}

/// The value of a digit string is at least the value of any of its prefixes.
proof fn lemma_dec_value_prefix(s: Seq<char>, j: int)
    requires
        0 <= j <= s.len(),
    ensures
        dec_value(s.subrange(0, j)) <= dec_value(s),
    decreases s.len(),
{
    if j == s.len() {
        assert(s.subrange(0, j) =~= s);
    } else {
        assert(s.drop_last().subrange(0, j) =~= s.subrange(0, j));
        lemma_dec_value_prefix(s.drop_last(), j);
        assert(dec_value(s.drop_last()) * 10 >= dec_value(s.drop_last())) by (nonlinear_arith);
    }
}

/// A digit character as a one-character string slice.
fn digit_str(d: u64) -> (r: &'static str)
    requires
        d < 10,
    ensures
        r@ == seq![digit_char(d as nat)],
{
    proof {
        reveal_strlit("0");
        reveal_strlit("1");
        reveal_strlit("2");
        reveal_strlit("3");
        reveal_strlit("4");
        reveal_strlit("5");
        reveal_strlit("6");
        reveal_strlit("7");
        reveal_strlit("8");
        reveal_strlit("9");
    }
    let r: &'static str = if d == 0 {
        "0"
    } else if d == 1 {
        "1"
    } else if d == 2 {
        "2"
    } else if d == 3 {
        "3"
    } else if d == 4 {
        "4"
    } else if d == 5 {
        "5"
    } else if d == 6 {
        "6"
    } else if d == 7 {
        "7"
    } else if d == 8 {
        "8"
    } else {
        "9"
    };
    proof {
        assert(r@ =~= seq![digit_char(d as nat)]);
    }
    r
}

/// Digits collected least significant first, read back most significant first.
spec fn rev_digit_chars(ds: Seq<u64>) -> Seq<char> {
    Seq::new(ds.len(), |i: int| digit_char(ds[ds.len() - 1 - i] as nat))
}

proof fn lemma_rev_push(ds: Seq<u64>, d: u64)
    ensures
        rev_digit_chars(ds.push(d)) =~= seq![digit_char(d as nat)] + rev_digit_chars(ds),
{
    assert forall|i: int| 0 <= i < ds.len() + 1 implies rev_digit_chars(ds.push(d))[i] == (
    seq![digit_char(d as nat)] + rev_digit_chars(ds))[i] by {
        if i == 0 {
            assert(ds.push(d)[ds.len() as int] == d);
        } else {
            assert(ds.push(d)[ds.len() - i] == ds[ds.len() - i]);
        }
    }
}

/// Format a value as its canonical decimal string.
pub fn u64_to_dec(n: u64) -> (r: String)
    ensures
        r@ == dec_string(n as nat),
{
    let mut digits: Vec<u64> = Vec::new();
    digits.push(n % 10);
    let mut m: u64 = n / 10;
    proof {
        lemma_rev_push(Seq::<u64>::empty(), n % 10);
        if n >= 10 {
            assert(dec_string(n as nat) =~= dec_string((n / 10) as nat) + rev_digit_chars(
                digits@,
            ));
        } else {
            assert(dec_string(n as nat) =~= rev_digit_chars(digits@));
        }
    }
    while m > 0
        invariant
            digits@.len() >= 1,
            forall|i: int| 0 <= i < digits@.len() ==> #[trigger] digits@[i] < 10,
            m > 0 ==> dec_string(n as nat) == dec_string(m as nat) + rev_digit_chars(digits@),
            m == 0 ==> dec_string(n as nat) == rev_digit_chars(digits@),
        decreases m,
    {
        let d: u64 = m % 10;
        let ghost old_digits = digits@;
        digits.push(d);
        let ghost old_m = m;
        m = m / 10;
        proof {
            lemma_rev_push(old_digits, d);
            if old_m >= 10 {
                assert(dec_string(old_m as nat) == dec_string((old_m / 10) as nat).push(
                    digit_char((old_m % 10) as nat),
                ));
                assert(dec_string((old_m / 10) as nat).push(digit_char((old_m % 10) as nat))
                    + rev_digit_chars(old_digits) =~= dec_string((old_m / 10) as nat) + (seq![
                        digit_char(d as nat),
                    ] + rev_digit_chars(old_digits)));
            } else {
                assert(dec_string(old_m as nat) =~= seq![digit_char(d as nat)]);
                assert(dec_string(old_m as nat) + rev_digit_chars(old_digits) =~= seq![
                    digit_char(d as nat),
                ] + rev_digit_chars(old_digits));
            }
        }
    }
    let mut s = String::new();
    let mut i: usize = digits.len();
    proof {
        assert(s@ =~= rev_digit_chars(digits@).subrange(0, 0));
    }
    while i > 0
        invariant
            i <= digits@.len(),
            forall|j: int| 0 <= j < digits@.len() ==> #[trigger] digits@[j] < 10,
            dec_string(n as nat) == rev_digit_chars(digits@),
            s@ == rev_digit_chars(digits@).subrange(0, digits@.len() - i),
        decreases i,
    {
        i = i - 1;
        let ds = digit_str(digits[i]);
        let ghost old_s = s@;
        s.append(ds);
        proof {
            let len = digits@.len() as int;
            assert(rev_digit_chars(digits@)[len - 1 - i] == digit_char(digits@[i as int] as nat));
            assert(s@ =~= rev_digit_chars(digits@).subrange(0, len - i));
        }
    }
    proof {
        assert(rev_digit_chars(digits@).subrange(0, digits@.len() as int) =~= rev_digit_chars(
            digits@,
        ));
    }
    s
}

/// Parse a decimal string into a value; `None` on an empty string, a
/// non-digit character, or overflow past `u64::MAX`.
pub fn parse_u64(s: &str) -> (r: Option<u64>)
    ensures
        r == parse_dec(s@),
{
    let len = s.unicode_len();
    if len == 0 {
        return None;
    }
    let mut acc: u64 = 0;
    let mut i: usize = 0;
    while i < len
        invariant
            len == s@.len(),
            i <= len,
            all_digits(s@.subrange(0, i as int)),
            acc == dec_value(s@.subrange(0, i as int)),
        decreases len - i,
    {
        let c = s.get_char(i);
        if !(c >= '0' && c <= '9') {
            return None;
        }
        let d: u64 = (c as u32 - '0' as u32) as u64;
        if acc > (u64::MAX - d) / 10 {
            proof {
                if all_digits(s@) {
                    assert(s@.subrange(0, i + 1).drop_last() =~= s@.subrange(0, i as int));
                    assert(dec_value(s@.subrange(0, i + 1)) == acc * 10 + d);
                    lemma_fundamental_div_mod((u64::MAX - d) as int, 10);
                    assert(acc * 10 >= ((u64::MAX - d) / 10 + 1) * 10) by (nonlinear_arith)
                        requires
                            acc >= (u64::MAX - d) / 10 + 1,
                    ;
                    lemma_dec_value_prefix(s@, i + 1);
                }
            }
            return None;
        }
        let ghost old_acc = acc;
        acc = acc * 10 + d;
        i = i + 1;
        proof {
            assert(s@.subrange(0, i as int).drop_last() =~= s@.subrange(0, i - 1));
            assert(s@.subrange(0, i as int).last() == s@[i - 1]);
            assert(all_digits(s@.subrange(0, i as int)));
        }
    }
    proof {
        assert(s@.subrange(0, len as int) =~= s@);
    }
    Some(acc)
}

} // verus!
