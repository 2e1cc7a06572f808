//! Measurement values as fixed-point hundredths.
//!
//! The source renders measurements inconsistently — some integral, some
//! fractional. The crate stores every measurement as a signed integer count of
//! hundredths and parses it from the decimal text of the source number:
//! an optional minus sign, one to twelve integer digits, and optionally a
//! point followed by fraction digits, of which the first two count (the rest
//! are truncated). Texts of any other shape — scientific notation, or more
//! integer digits than any sensor value has — do not parse, and the element
//! or field carrying them is treated as malformed.

use vstd::prelude::*;

use crate::datetime::{digit_val, is_digit};

verus! {

/// `k` splits the unsigned part `u` into its integer digits `u[..k]` and,
/// unless `k` is the whole text, a point at `u[k]` with only digits after it.
pub open spec fn dec_split_at(u: Seq<char>, k: int) -> bool {
    &&& 1 <= k <= 12
    &&& k <= u.len()
    &&& forall|i: int| 0 <= i < k ==> is_digit(#[trigger] u[i])
    &&& (k == u.len() || (u[k] == '.' && forall|i: int|
        k < i < u.len() ==> is_digit(#[trigger] u[i])))
}

/// The text with the minus sign, if any, stripped.
pub open spec fn dec_body(s: Seq<char>) -> Seq<char> {
    if s.len() > 0 && s[0] == '-' {
        s.skip(1)
    } else {
        s
    }
}

/// Whether the text is a decimal number the crate accepts.
pub open spec fn dec_text_ok(s: Seq<char>) -> bool {
    exists|k: int| #[trigger] dec_split_at(dec_body(s), k)
}

/// The value of the digit text `u[..k]`.
pub open spec fn digits_val(u: Seq<char>, k: int) -> int
    decreases k,
{
    if k <= 0 {
        0
    } else {
        digits_val(u, k - 1) * 10 + digit_val(u[k - 1])
    }
}

/// The hundredths contributed by the fraction digits after a point at `u[k]`:
/// the first truncated to tens, the second to ones, the rest nothing.
pub open spec fn frac_centi(u: Seq<char>, k: int) -> int {
    if u.len() >= k + 3 {
        digit_val(u[k + 1]) * 10 + digit_val(u[k + 2])
    } else if u.len() == k + 2 {
        digit_val(u[k + 1]) * 10
    } else {
        0
    }
}

/// The value of an accepted decimal text, in hundredths, truncated toward
/// zero beyond the second fraction digit.
pub open spec fn dec_centi(s: Seq<char>) -> int {
    let u = dec_body(s);
    let k = choose|k: int| #[trigger] dec_split_at(u, k);
    let m = digits_val(u, k) * 100 + frac_centi(u, k);
    if s.len() > 0 && s[0] == '-' {
        -m
    } else {
        m
    }
}

/// Ten to the `k`th.
pub open spec fn pow10(k: int) -> int
    decreases k,
{
    if k <= 0 {
        1
    } else {
        10 * pow10(k - 1)
    }
}

/// A `k`-digit text values below ten to the `k`th.
proof fn lemma_digits_val_bound(u: Seq<char>, k: int)
    requires
        0 <= k,
        forall|i: int| 0 <= i < k ==> is_digit(#[trigger] u[i]),
    ensures
        0 <= digits_val(u, k) < pow10(k),
    decreases k,
{
    if k > 0 {
        lemma_digits_val_bound(u, k - 1);
    }
}

/// Powers of ten are positive.
proof fn lemma_pow10_pos(a: int)
    requires
        0 <= a,
    ensures
        pow10(a) > 0,
    decreases a,
{
    if a > 0 {
        lemma_pow10_pos(a - 1);
    }
}

/// Powers of ten grow with the exponent.
proof fn lemma_pow10_mono(a: int, b: int)
    requires
        0 <= a <= b,
    ensures
        pow10(a) <= pow10(b),
    decreases b - a,
{
    if a < b {
        lemma_pow10_mono(a, b - 1);
        lemma_pow10_pos(b - 1);
    }
}

/// The split point of a decimal text is unique: it is the position of the
/// point, or the end.
proof fn lemma_split_unique(u: Seq<char>, k1: int, k2: int)
    requires
        dec_split_at(u, k1),
        dec_split_at(u, k2),
    ensures
        k1 == k2,
{
    if k1 < k2 {
        assert(u[k1] == '.');
        assert(is_digit(u[k1]));
    } else if k2 < k1 {
        assert(u[k2] == '.');
        assert(is_digit(u[k2]));
    }
}

/// Whether the character at position `i` is a decimal digit.
fn is_digit_at(s: &str, i: usize) -> (r: bool)
    requires
        i < s@.len(),
    ensures
        r == is_digit(s@[i as int]),
{
    let cu = s.get_char(i) as u32;
    48 <= cu && cu <= 57
}

/// Parses a decimal text into hundredths. Returns the value exactly when the
/// text has the accepted shape, by [`dec_text_ok`] and [`dec_centi`].
pub fn parse_centi(s: &str) -> (r: Option<i64>)
    ensures
        match r {
            Some(c) => dec_text_ok(s@) && c == dec_centi(s@),
            None => !dec_text_ok(s@),
        },
{
    let n = s.unicode_len();
    let mut i: usize = 0;
    let mut neg = false;
    if n > 0 && s.get_char(0) == '-' {
        neg = true;
        i = 1;
    }
    let ghost start = i as int;
    let ghost u = dec_body(s@);
    proof {
        assert(u =~= s@.skip(start));
    }
    let mut acc: i64 = 0;
    let mut count: usize = 0;
    while i < n && count < 13 && is_digit_at(s, i)
        invariant
            n == s@.len(),
            u == dec_body(s@),
            u == s@.skip(start),
            u.len() == n - start,
            0 <= start <= i <= n,
            count == i - start,
            count <= 13,
            forall|j: int| 0 <= j < count ==> is_digit(#[trigger] u[j]),
            acc == digits_val(u, count as int),
            neg <==> (s@.len() > 0 && s@[0] == '-'),
        decreases n - i,
    {
        let c = s.get_char(i);
        let cu = c as u32;
        proof {
            assert(u[count as int] == s@[i as int]);
            lemma_digits_val_bound(u, count as int);
            lemma_pow10_mono(count as int, 12);
            reveal_with_fuel(pow10, 13);
        }
        acc = acc * 10 + ((cu - 48) as i64);
        count = count + 1;
        i = i + 1;
    }
    if count == 0 || count > 12 {
        // No digits at all, or a thirteenth digit: no split point fits.
        proof {
            assert forall|k: int| !dec_split_at(u, k) by {
                if dec_split_at(u, k) {
                    if count == 0 {
                        if start < n {
                            assert(u[0] == s@[start]);
                            assert(is_digit(u[0]));
                            assert(false);
                        } else {
                            assert(u.len() == 0);
                            assert(false);
                        }
                    } else {
                        assert(is_digit(u[k]));
                        assert(u[k] == '.');
                        assert(false);
                    }
                }
            }
        }
        return None;
    }
    proof {
        lemma_digits_val_bound(u, count as int);
        lemma_pow10_mono(count as int, 12);
        reveal_with_fuel(pow10, 13);
    }
    if i == n {
        // All digits: the split point is the end of the text.
        proof {
            assert(dec_split_at(u, count as int));
            let kc = choose|k: int| #[trigger] dec_split_at(u, k);
            lemma_split_unique(u, kc, count as int);
        }
        let m = acc * 100;
        return if neg {
            Some(-m)
        } else {
            Some(m)
        };
    }
    let c = s.get_char(i);
    if c != '.' {
        // A non-digit other than the point ends the integer digits: no split.
        proof {
            assert(u[count as int] == s@[i as int]);
            assert(!is_digit(u[count as int]));
            assert forall|k: int| !dec_split_at(u, k) by {
                if dec_split_at(u, k) {
                    if k < count {
                        assert(is_digit(u[k]));
                        assert(u[k] == '.');
                        assert(false);
                    } else if k == count {
                        assert(u[k] == '.');
                        assert(false);
                    } else {
                        assert(is_digit(u[count as int]));
                        assert(false);
                    }
                }
            }
        }
        return None;
    }
    let ghost kk = count as int;
    let dot = i;
    i = i + 1;
    let mut frac2: i64 = 0;
    while i < n
        invariant
            n == s@.len(),
            u == dec_body(s@),
            u == s@.skip(start),
            u.len() == n - start,
            0 <= start,
            count == dot - start,
            kk == count as int,
            1 <= count <= 12,
            start <= dot < i <= n,
            forall|j: int| 0 <= j < count ==> is_digit(#[trigger] u[j]),
            u[kk] == '.',
            forall|j: int| kk < j < i - start ==> is_digit(#[trigger] u[j]),
            i >= dot + 3 ==> frac2 == digit_val(u[kk + 1]) * 10 + digit_val(u[kk + 2]),
            i == dot + 2 ==> frac2 == digit_val(u[kk + 1]) * 10,
            i == dot + 1 ==> frac2 == 0,
            0 <= frac2 <= 99,
        decreases n - i,
    {
        let c = s.get_char(i);
        let cu = c as u32;
        if !(48 <= cu && cu <= 57) {
            // A non-digit in the fraction: the only candidate split point is
            // the point itself, and it demands digits to the end.
            proof {
                assert(u[i - start] == s@[i as int]);
                assert(!is_digit(u[i - start]));
                assert forall|k: int| !dec_split_at(u, k) by {
                    if dec_split_at(u, k) {
                        if k < kk {
                            assert(is_digit(u[k]));
                            assert(u[k] == '.');
                            assert(false);
                        } else if k > kk {
                            assert(is_digit(u[kk]));
                            assert(false);
                        } else {
                            assert(kk < i - start < u.len());
                            assert(is_digit(u[i - start]));
                            assert(false);
                        }
                    }
                }
            }
            return None;
        }
        if i == dot + 1 {
            frac2 = ((cu - 48) as i64) * 10;
        } else if i == dot + 2 {
            frac2 = frac2 + ((cu - 48) as i64);
        }
        i = i + 1;
    }
    proof {
        assert(dec_split_at(u, kk));
        let kc = choose|k: int| #[trigger] dec_split_at(u, k);
        lemma_split_unique(u, kc, kk);
        assert(frac2 == frac_centi(u, kk));
    }
    let m = acc * 100 + frac2;
    if neg {
        Some(-m)
    } else {
        Some(m)
    }
}

} // verus!
