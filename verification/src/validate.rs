//! Argument shape checks used by the networking menu.
//!
//! The dispatch engine itself validates nothing — argument semantics belong
//! to the bound actions — but the menu refuses obviously malformed targets
//! before dispatching: a host must look like a dotted-quad address or a URL
//! with an explicit scheme.

use vstd::prelude::*;
use vstd::string::StrSliceExecFns;

use crate::text::str_has_prefix;

verus! {

/// An ASCII decimal digit.
pub open spec fn is_dec_digit(c: char) -> bool {
    '0' as int <= c as int && c as int <= '9' as int
}

/// The numeric value of one digit.
pub open spec fn digit_val(c: char) -> int {
    c as int - '0' as int
}

/// The numeric value of a digit string, most significant digit first.
pub open spec fn digits_value(digits: Seq<char>) -> int
    decreases digits.len(),
{
    if digits.len() == 0 {
        0
    } else {
        digits_value(digits.drop_last()) * 10 + digit_val(digits.last())
    }
}

/// The digit portion of an octet: what follows an optional leading plus
/// sign.
pub open spec fn octet_digits(part: Seq<char>) -> Seq<char> {
    if part.len() > 0 && part[0] == '+' {
        part.drop_first()
    } else {
        part
    }
}

/// A non-empty, all-decimal digit string whose value fits in a byte.
pub open spec fn spec_digits_ok(digits: Seq<char>) -> bool {
    &&& digits.len() > 0
    &&& forall|i: int| 0 <= i < digits.len() ==> is_dec_digit(#[trigger] digits[i])
    &&& digits_value(digits) <= 255
}

/// What byte-sized numeric parsing accepts: an optional leading plus sign,
/// then at least one decimal digit, with a value that fits in a byte.
pub open spec fn spec_valid_octet(part: Seq<char>) -> bool {
    spec_digits_ok(octet_digits(part))
}

/// `i`, `j` and `k` are exactly the positions of the dots in `s`.
pub open spec fn dot_positions(s: Seq<char>, i: int, j: int, k: int) -> bool {
    &&& s[i] == '.'
    &&& s[j] == '.'
    &&& s[k] == '.'
    &&& forall|m: int| 0 <= m < s.len() && #[trigger] s[m] == '.' ==> m == i || m == j || m == k
}

/// Dotted-quad shape: exactly four octets separated by three dots.
pub open spec fn spec_valid_ip(s: Seq<char>) -> bool {
    exists|i: int, j: int, k: int|
        {
            &&& 0 <= i < j
            &&& j < k < s.len()
            &&& #[trigger] dot_positions(s, i, j, k)
            &&& spec_valid_octet(s.subrange(0, i))
            &&& spec_valid_octet(s.subrange(i + 1, j))
            &&& spec_valid_octet(s.subrange(j + 1, k))
            &&& spec_valid_octet(s.subrange(k + 1, s.len() as int))
        }
}

/// A URL accepted by the networking menu: an explicit scheme.
pub open spec fn spec_valid_url(url: Seq<char>) -> bool {
    ||| url.len() >= 7 && url.subrange(0, 7) == "http://"@
    ||| url.len() >= 8 && url.subrange(0, 8) == "https://"@
}

/// Whether `url` carries an explicit scheme.
pub fn is_valid_url(url: &str) -> (valid: bool)
    ensures
        valid == spec_valid_url(url@),
{
    proof {
        reveal_strlit("http://");
        reveal_strlit("https://");
    }
    let http = str_has_prefix(url, "http://");
    let https = str_has_prefix(url, "https://");
    http || https
}

/// A string of decimal digits never has a negative value.
proof fn lemma_digits_value_nonneg(digits: Seq<char>)
    requires
        forall|i: int| 0 <= i < digits.len() ==> is_dec_digit(#[trigger] digits[i]),
    ensures
        digits_value(digits) >= 0,
    decreases digits.len(),
{
    if digits.len() > 0 {
        lemma_digits_value_nonneg(digits.drop_last());
    }
}

/// Whether the characters of `s` from `from` (inclusive) to `to`
/// (exclusive) form a valid octet.
fn valid_octet_range(s: &str, from: usize, to: usize) -> (valid: bool)
    requires
        from <= to <= s@.len(),
    ensures
        valid == spec_valid_octet(s@.subrange(from as int, to as int)),
{
    let ghost part = s@.subrange(from as int, to as int);
    if from == to {
        return false;
    }
    let first = s.get_char(from);
    let base: usize = if first == '+' {
        from + 1
    } else {
        from
    };
    let ghost digits = s@.subrange(base as int, to as int);
    proof {
        if first == '+' {
            assert(part[0] == '+');
            assert(part.drop_first() =~= digits);
        } else {
            assert(part =~= digits);
        }
        assert(octet_digits(part) == digits);
    }
    if base == to {
        return false;
    }
    let mut pos: usize = base;
    let mut acc: u32 = 0;
    while pos < to
        invariant
            base <= pos <= to <= s@.len(),
            from <= base,
            part == s@.subrange(from as int, to as int),
            digits == s@.subrange(base as int, to as int),
            octet_digits(part) == digits,
            forall|i: int| 0 <= i < pos - base ==> is_dec_digit(#[trigger] digits[i]),
            digits_value(digits.take(pos - base)) <= 255 ==> acc == digits_value(
                digits.take(pos - base),
            ),
            digits_value(digits.take(pos - base)) > 255 ==> acc > 255,
            acc <= 2559,
        decreases to - pos,
    {
        let c = s.get_char(pos);
        let cu: u32 = c as u32;
        if cu < 48 || cu > 57 {
            proof {
                assert(digits[pos - base] == c);
                assert(!is_dec_digit(digits[pos - base]));
                assert(!spec_digits_ok(digits));
            }
            return false;
        }
        let d: u32 = cu - 48;
        proof {
            let prefix = digits.take(pos - base);
            let next = digits.take(pos + 1 - base);
            assert(next.drop_last() =~= prefix);
            assert(next.last() == digits[pos - base]);
            assert(digits[pos - base] == c);
            lemma_digits_value_nonneg(prefix);
        }
        if acc <= 255 {
            acc = acc * 10 + d;
        } else {
            acc = 256;
        }
        pos += 1;
    }
    proof {
        assert(digits.take(to - base) =~= digits);
        assert(spec_digits_ok(digits) == (digits_value(digits) <= 255));
    }
    acc <= 255
}

/// Whether `ip` is a dotted-quad address: four octets separated by dots,
/// each within a byte's range.
pub fn is_valid_ip(ip: &str) -> (valid: bool)
    ensures
        valid == spec_valid_ip(ip@),
{
    let n: usize = ip.unicode_len();
    let mut dots: Vec<usize> = Vec::new();
    let mut pos: usize = 0;
    while pos < n
        invariant
            pos <= n,
            n == ip@.len(),
            forall|d: int| 0 <= d < dots@.len() ==> 0 <= #[trigger] dots@[d] < pos,
            forall|d: int| 0 <= d < dots@.len() ==> ip@[dots@[d] as int] == '.',
            forall|d1: int, d2: int| 0 <= d1 < d2 < dots@.len() ==> dots@[d1] < dots@[d2],
            forall|m: int|
                0 <= m < pos && #[trigger] ip@[m] == '.' ==> exists|d: int|
                    0 <= d < dots@.len() && dots@[d] == m,
        decreases n - pos,
    {
        let ghost previous = dots@;
        if ip.get_char(pos) == '.' {
            dots.push(pos);
        }
        proof {
            assert forall|m: int| 0 <= m < pos + 1 && #[trigger] ip@[m] == '.' implies exists|d: int|
                0 <= d < dots@.len() && dots@[d] == m by {
                if m == pos {
                    assert(dots@[dots@.len() - 1] == m);
                } else {
                    let d0 = choose|d: int| 0 <= d < previous.len() && previous[d] == m;
                    assert(dots@[d0] == m);
                }
            }
        }
        pos += 1;
    }
    if dots.len() != 3 {
        proof {
            assert forall|i: int, j: int, k: int|
                !({
                    &&& 0 <= i < j
                    &&& j < k < ip@.len()
                    &&& #[trigger] dot_positions(ip@, i, j, k)
                }) by {
                if 0 <= i < j && j < k < ip@.len() && dot_positions(ip@, i, j, k) {
                    assert(exists|d: int| 0 <= d < dots@.len() && dots@[d] == i);
                    assert(exists|d: int| 0 <= d < dots@.len() && dots@[d] == j);
                    assert(exists|d: int| 0 <= d < dots@.len() && dots@[d] == k);
                    if dots@.len() > 3 {
                        let m0 = dots@[0];
                        let m1 = dots@[1];
                        let m2 = dots@[2];
                        let m3 = dots@[3];
                        assert(ip@[m0 as int] == '.');
                        assert(ip@[m1 as int] == '.');
                        assert(ip@[m2 as int] == '.');
                        assert(ip@[m3 as int] == '.');
                    }
                }
            }
        }
        return false;
    }
    let i: usize = dots[0];
    let j: usize = dots[1];
    let k: usize = dots[2];
    proof {
        assert(dot_positions(ip@, i as int, j as int, k as int));
    }
    let first = valid_octet_range(ip, 0, i);
    let second = valid_octet_range(ip, i + 1, j);
    let third = valid_octet_range(ip, j + 1, k);
    let fourth = valid_octet_range(ip, k + 1, n);
    let valid = first && second && third && fourth;
    proof {
        if !valid {
            assert forall|i2: int, j2: int, k2: int|
                !({
                    &&& 0 <= i2 < j2
                    &&& j2 < k2 < ip@.len()
                    &&& #[trigger] dot_positions(ip@, i2, j2, k2)
                    &&& spec_valid_octet(ip@.subrange(0, i2))
                    &&& spec_valid_octet(ip@.subrange(i2 + 1, j2))
                    &&& spec_valid_octet(ip@.subrange(j2 + 1, k2))
                    &&& spec_valid_octet(ip@.subrange(k2 + 1, ip@.len() as int))
                }) by {
                if 0 <= i2 < j2 && j2 < k2 < ip@.len() && dot_positions(ip@, i2, j2, k2) {
                    assert(exists|d: int| 0 <= d < dots@.len() && dots@[d] == i2);
                    assert(exists|d: int| 0 <= d < dots@.len() && dots@[d] == j2);
                    assert(exists|d: int| 0 <= d < dots@.len() && dots@[d] == k2);
                    assert(i2 == i && j2 == j && k2 == k);
                }
            }
        }
    }
    valid
}

} // verus!
