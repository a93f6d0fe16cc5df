//! Fixed-width decimal component codec.
//!
//! Every geographic identifier is a concatenation of zero-padded decimal
//! segments. This module gives the mathematical model of decimal digit
//! strings (`digit_char`, `nat_of_digits`, `padded_digits`, `dec_digits`)
//! together with verified executable encoders and a verified parser.

use vstd::prelude::*;

verus! {

/// The character for a single decimal digit value.
pub open spec fn digit_char(d: nat) -> char {
    if d == 0 {
        '0'
    } else if d == 1 {
        '1'
    } else if d == 2 {
        '2'
    } else if d == 3 {
        '3'
    } else if d == 4 {
        '4'
    } else if d == 5 {
        '5'
    } else if d == 6 {
        '6'
    } else if d == 7 {
        '7'
    } else if d == 8 {
        '8'
    } else {
        '9'
    }
}

/// Whether a character is a decimal digit.
pub open spec fn is_digit(c: char) -> bool {
    c == '0' || c == '1' || c == '2' || c == '3' || c == '4' || c == '5' || c == '6' || c == '7'
        || c == '8' || c == '9'
}

/// The numeric value of a decimal digit character (digits only; other
/// characters are mapped to 9, a value never relied upon).
pub open spec fn digit_val(c: char) -> nat {
    if c == '0' {
        0
    } else if c == '1' {
        1
    } else if c == '2' {
        2
    } else if c == '3' {
        3
    } else if c == '4' {
        4
    } else if c == '5' {
        5
    } else if c == '6' {
        6
    } else if c == '7' {
        7
    } else if c == '8' {
        8
    } else {
        9
    }
}

/// Whether every character of a string is a decimal digit.
pub open spec fn all_digits(s: Seq<char>) -> bool {
    forall|i: int| 0 <= i < s.len() ==> is_digit(#[trigger] s[i])
}

/// The number denoted by a digit string, most significant digit first.
/// The empty string denotes zero.
pub open spec fn nat_of_digits(s: Seq<char>) -> nat
    decreases s.len(),
{
    if s.len() == 0 {
        0
    } else {
        nat_of_digits(s.drop_last()) * 10 + digit_val(s.last())
    }
}

/// Ten to the given power.
pub open spec fn pow10(w: nat) -> nat
    decreases w,
{
    if w == 0 {
        1
    } else {
        10 * pow10((w - 1) as nat)
    }
}

/// The canonical `w`-digit zero-padded rendering of `v` (the low `w`
/// decimal digits of `v`, most significant first).
pub open spec fn padded_digits(v: nat, w: nat) -> Seq<char>
    decreases w,
{
    if w == 0 {
        Seq::empty()
    } else {
        padded_digits(v / 10, (w - 1) as nat).push(digit_char(v % 10))
    }
}

/// The ordinary (unpadded) decimal rendering of `v`.
pub open spec fn dec_digits(v: nat) -> Seq<char>
    decreases v,
{
    if v < 10 {
        seq![digit_char(v)]
    } else {
        dec_digits(v / 10).push(digit_char(v % 10))
    }
}

/// A digit string denotes a value below ten to its length.
pub proof fn lemma_nat_of_digits_bound(s: Seq<char>)
    requires
        all_digits(s),
    ensures
        nat_of_digits(s) < pow10(s.len()),
    decreases s.len(),
{
    if s.len() > 0 {
        assert(all_digits(s.drop_last())) by {
            assert(forall|i: int|
                0 <= i < s.len() - 1 ==> #[trigger] s.drop_last()[i] == s[i]);
        }
        lemma_nat_of_digits_bound(s.drop_last());
        assert(digit_val(s.last()) <= 9);
    }
}

/// The padded rendering has exactly the requested width, and is all digits.
pub proof fn lemma_padded_digits_wf(v: nat, w: nat)
    ensures
        padded_digits(v, w).len() == w,
        all_digits(padded_digits(v, w)),
    decreases w,
{
    if w > 0 {
        lemma_padded_digits_wf(v / 10, (w - 1) as nat);
        let s = padded_digits(v, w);
        let t = padded_digits(v / 10, (w - 1) as nat);
        assert(forall|i: int| 0 <= i < s.len() - 1 ==> #[trigger] s[i] == t[i]);
        assert(is_digit(digit_char(v % 10)));
    }
}

/// Encoding a value below ten to the width and reading the digits back
/// yields the value: the padded codec is lossless on in-range values.
pub proof fn lemma_padded_digits_roundtrip(v: nat, w: nat)
    requires
        v < pow10(w),
    ensures
        nat_of_digits(padded_digits(v, w)) == v,
    decreases w,
{
    if w == 0 {
        assert(v == 0);
    } else {
        assert(v / 10 < pow10((w - 1) as nat)) by {
            assert(pow10(w) == 10 * pow10((w - 1) as nat));
            assert(v / 10 < pow10((w - 1) as nat)) by (nonlinear_arith)
                requires
                    v < 10 * pow10((w - 1) as nat),
            ;
        }
        lemma_padded_digits_roundtrip(v / 10, (w - 1) as nat);
        let s = padded_digits(v, w);
        assert(s.drop_last() =~= padded_digits(v / 10, (w - 1) as nat));
        assert(digit_val(digit_char(v % 10)) == v % 10);
        assert((v / 10) * 10 + v % 10 == v) by (nonlinear_arith);
    }
}

/// Splitting a digit string: the value of the whole is the value of the
/// prefix scaled by ten to the suffix length, plus the value of the suffix.
pub proof fn lemma_nat_of_digits_split(s: Seq<char>, k: int)
    requires
        0 <= k <= s.len(),
    ensures
        nat_of_digits(s) == nat_of_digits(s.subrange(0, k)) * pow10((s.len() - k) as nat)
            + nat_of_digits(s.subrange(k, s.len() as int)),
    decreases s.len() - k,
{
    if k == s.len() {
        assert(s.subrange(0, k) =~= s);
        assert(s.subrange(k, s.len() as int) =~= Seq::<char>::empty());
        assert(pow10((s.len() - k) as nat) == 1);
        assert(nat_of_digits(s.subrange(k, s.len() as int)) == 0);
        assert(nat_of_digits(s) == nat_of_digits(s.subrange(0, k)) * pow10(
            (s.len() - k) as nat,
        ) + nat_of_digits(s.subrange(k, s.len() as int)));
    } else {
        let t = s.drop_last();
        let n = s.len() as int;
        lemma_nat_of_digits_split(t, k);
        assert(t.subrange(0, k) =~= s.subrange(0, k));
        assert(t.subrange(k, n - 1) =~= s.subrange(k, n).drop_last());
        let p = nat_of_digits(s.subrange(0, k));
        let m = (n - 1 - k) as nat;
        let x = pow10(m);
        let q = nat_of_digits(s.subrange(k, n).drop_last());
        let d = digit_val(s.last());
        assert(nat_of_digits(t) == p * x + q);
        assert(nat_of_digits(s) == nat_of_digits(t) * 10 + d);
        assert(s.subrange(k, n).last() == s.last());
        assert(s.subrange(k, n).len() > 0);
        assert(nat_of_digits(s.subrange(k, n)) == q * 10 + d);
        assert((n - k) as nat == m + 1);
        assert(pow10(m + 1) == 10 * x);
        assert((p * x + q) * 10 + d == p * (10 * x) + (q * 10 + d)) by (nonlinear_arith);
        assert(nat_of_digits(s) == p * pow10((n - k) as nat) + nat_of_digits(
            s.subrange(k, n),
        ));
    }
}

/// A digit string denotes at least as much as any of its prefixes.
pub proof fn lemma_nat_of_digits_prefix_le(s: Seq<char>, k: int)
    requires
        0 <= k <= s.len(),
    ensures
        nat_of_digits(s.subrange(0, k)) <= nat_of_digits(s),
{
    lemma_nat_of_digits_split(s, k);
    let p = nat_of_digits(s.subrange(0, k));
    let e = (s.len() - k) as nat;
    lemma_pow10_pos(e);
    assert(p * pow10(e) >= p * 1) by (nonlinear_arith)
        requires
            pow10(e) >= 1,
    ;
}

/// Ten to any power is positive.
pub proof fn lemma_pow10_pos(w: nat)
    ensures
        pow10(w) >= 1,
    decreases w,
{
    if w > 0 {
        lemma_pow10_pos((w - 1) as nat);
    }
}

/// Powers of ten grow with the exponent.
pub proof fn lemma_pow10_mono(a: nat, b: nat)
    requires
        a <= b,
    ensures
        pow10(a) <= pow10(b),
    decreases b,
{
    if a < b {
        lemma_pow10_mono(a, (b - 1) as nat);
    }
}

/// Ten to the given power, as a machine integer.
pub fn pow10_u64(w: usize) -> (r: u64)
    requires
        w <= 19,
    ensures
        r as nat == pow10(w as nat),
    decreases w,
{
    if w == 0 {
        1
    } else {
        proof {
            lemma_pow10_mono((w - 1) as nat, 18);
            assert(pow10(18) == 1000000000000000000) by {
                reveal_with_fuel(pow10, 19);
            }
        }
        10 * pow10_u64(w - 1)
    }
}

/// Zero-pad a value to the given width if it fits; a value too wide for
/// its slot is rendered unpadded rather than truncated.
pub open spec fn min_padded(v: nat, w: nat) -> Seq<char> {
    if v < pow10(w) {
        padded_digits(v, w)
    } else {
        dec_digits(v)
    }
}

/// The single-character string for a decimal digit value.
pub fn digit_to_str(d: u64) -> (r: &'static str)
    requires
        d < 10,
    ensures
        r@ =~= seq![digit_char(d as nat)],
{
    proof {
        reveal_strlit("0");
        reveal_strlit("1");
        reveal_strlit("2");
        reveal_strlit("3");
        reveal_strlit("4");
        reveal_strlit("5");
        reveal_strlit("6");
        reveal_strlit("7");
        reveal_strlit("8");
        reveal_strlit("9");
    }
    match d {
        0 => "0",
        1 => "1",
        2 => "2",
        3 => "3",
        4 => "4",
        5 => "5",
        6 => "6",
        7 => "7",
        8 => "8",
        _ => "9",
    }
}

/// Zero-padded encoding of `v` to exactly `w` digits.
pub fn encode_padded(v: u64, w: usize) -> (r: String)
    requires
        v < pow10(w as nat),
    ensures
        r@ == padded_digits(v as nat, w as nat),
    decreases w,
{
    if w == 0 {
        String::new()
    } else {
        proof {
            assert(pow10(w as nat) == 10 * pow10((w - 1) as nat));
            assert(v / 10 < pow10((w - 1) as nat)) by (nonlinear_arith)
                requires
                    v < 10 * pow10((w - 1) as nat),
            ;
        }
        let mut s = encode_padded(v / 10, w - 1);
        s.append(digit_to_str(v % 10));
        proof {
            assert(s@ =~= padded_digits(v as nat, w as nat));
        }
        s
    }
}

/// Ordinary (unpadded) decimal encoding of `v`.
pub fn encode_u64(v: u64) -> (r: String)
    ensures
        r@ == dec_digits(v as nat),
    decreases v,
{
    if v < 10 {
        let mut s = String::new();
        s.append(digit_to_str(v));
        proof {
            assert(s@ =~= dec_digits(v as nat));
        }
        s
    } else {
        let mut s = encode_u64(v / 10);
        s.append(digit_to_str(v % 10));
        proof {
            assert(s@ =~= dec_digits(v as nat));
        }
        s
    }
}

/// The numeric value of one character, if it is a decimal digit.
pub fn char_digit_val(c: char) -> (r: Option<u64>)
    ensures
        r is Some <==> is_digit(c),
        is_digit(c) ==> r == Some(digit_val(c) as u64),
{
    match c {
        '0' => Some(0),
        '1' => Some(1),
        '2' => Some(2),
        '3' => Some(3),
        '4' => Some(4),
        '5' => Some(5),
        '6' => Some(6),
        '7' => Some(7),
        '8' => Some(8),
        '9' => Some(9),
        _ => None,
    }
}

/// Whether a digit string is parseable as a machine integer: nonempty,
/// all digits, and in range.
pub open spec fn parseable_u64(s: Seq<char>) -> bool {
    s.len() >= 1 && all_digits(s) && nat_of_digits(s) <= u64::MAX
}

/// Parse a digit string as an unsigned integer. Succeeds exactly on
/// nonempty all-digit strings whose value fits the machine word.
pub fn parse_u64(s: &str) -> (r: Option<u64>)
    ensures
        r is Some <==> parseable_u64(s@),
        r is Some ==> r == Some(nat_of_digits(s@) as u64),
{
    let n = s.unicode_len();
    if n == 0 {
        return None;
    }
    let mut acc: u64 = 0;
    let mut i: usize = 0;
    while i < n
        invariant
            0 <= i <= n,
            n == s@.len(),
            all_digits(s@.subrange(0, i as int)),
            acc == nat_of_digits(s@.subrange(0, i as int)),
        decreases n - i,
    {
        let c = s.get_char(i);
        let ghost pre = s@.subrange(0, i as int);
        let ghost cur = s@.subrange(0, i as int + 1);
        proof {
            assert(cur.drop_last() =~= pre);
            assert(cur.last() == s@[i as int]);
        }
        match char_digit_val(c) {
            None => {
                // a non-digit character refutes `all_digits` for the whole string
                proof {
                    assert(!is_digit(s@[i as int]));
                }
                return None;
            },
            Some(d) => {
                if acc > (u64::MAX - d) / 10 {
                    // the value of this prefix already exceeds the machine word,
                    // and a digit string denotes at least as much as its prefixes
                    proof {
                        assert(acc * 10 + d > u64::MAX) by (nonlinear_arith)
                            requires
                                acc > (u64::MAX - d) / 10,
                                d < 10,
                        ;
                        assert(nat_of_digits(cur) > u64::MAX);
                        if parseable_u64(s@) {
                            lemma_nat_of_digits_prefix_le(s@, i as int + 1);
                        }
                    }
                    return None;
                }
                proof {
                    assert(acc * 10 + d <= u64::MAX) by (nonlinear_arith)
                        requires
                            acc <= (u64::MAX - d) / 10,
                            d < 10,
                    ;
                }
                acc = acc * 10 + d;
            },
        }
        i += 1;
    }
    proof {
        assert(s@.subrange(0, n as int) =~= s@);
    }
    Some(acc)
}

} // verus!
