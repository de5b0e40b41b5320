//! Exact decimal prices, read from the text the exchange sends.

use vstd::prelude::*;
use crate::text::chars_of;

verus! {

/// The number `units / 10^scale`, kept as written: `50010.50` has 5001050
/// units and scale 2.
#[derive(Debug, Clone, Copy, PartialEq, Eq)]
pub struct Decimal {
    pub units: u64,
    pub scale: usize,
}

pub open spec fn is_digit(c: char) -> bool {
    '0' <= c && c <= '9'
}

pub open spec fn all_digits(s: Seq<char>) -> bool {
    forall|i: int| 0 <= i < s.len() ==> is_digit(#[trigger] s[i])
}

/// The number that a run of decimal digits spells.
pub open spec fn digits_value(s: Seq<char>) -> nat
    decreases s.len(),
{
    if s.len() == 0 {
        0
    } else {
        digits_value(s.drop_last()) * 10 + (s.last() as u32 - '0' as u32) as nat
    }
}

/// Where the first `.` of `s` stands, or `s.len()` if there is none.
pub open spec fn point_index(s: Seq<char>) -> int
    decreases s.len(),
{
    if s.len() == 0 {
        0
    } else if s[0] == '.' {
        0
    } else {
        1 + point_index(s.drop_first())
    }
}

pub open spec fn whole_part(s: Seq<char>) -> Seq<char> {
    s.subrange(0, point_index(s))
}

pub open spec fn fraction_part(s: Seq<char>) -> Seq<char> {
    if point_index(s) < s.len() {
        s.subrange(point_index(s) + 1, s.len() as int)
    } else {
        Seq::empty()
    }
}

/// The decimal that `s` writes: digits, optionally a point and more digits,
/// at least one digit in all, and a value that fits in `u64` units.
pub open spec fn decimal_of(s: Seq<char>) -> Option<Decimal> {
    let digits = whole_part(s) + fraction_part(s);
    if all_digits(whole_part(s)) && all_digits(fraction_part(s)) && digits.len() > 0
        && digits_value(digits) <= u64::MAX {
        Some(Decimal { units: digits_value(digits) as u64, scale: fraction_part(s).len() as usize })
    } else {
        None
    }
}

proof fn lemma_point_index(s: Seq<char>, k: int)
    requires
        0 <= k <= s.len(),
        forall|j: int| 0 <= j < k ==> s[j] != '.',
        k < s.len() ==> s[k] == '.',
    ensures
        point_index(s) == k,
    decreases s.len(),
{
    if s.len() > 0 && k > 0 {
        let t = s.drop_first();
        assert forall|j: int| 0 <= j < k - 1 implies t[j] != '.' by {
            assert(t[j] == s[j + 1]);
        }
        if k - 1 < t.len() {
            assert(t[k - 1] == s[k]);
        }
        lemma_point_index(t, k - 1);
    }
}

proof fn lemma_digits_prefix(s: Seq<char>, i: int)
    requires
        0 <= i <= s.len(),
        all_digits(s),
    ensures
        digits_value(s.subrange(0, i)) <= digits_value(s),
    decreases s.len() - i,
{
    if i < s.len() {
        lemma_digits_prefix(s, i + 1);
        let p = s.subrange(0, i + 1);
        assert(p.drop_last() =~= s.subrange(0, i));
        assert(is_digit(s[i]));
    } else {
        assert(s.subrange(0, i) =~= s);
    }
}

/// Reads the decimal that `s` writes (see `decimal_of`).
pub fn parse_decimal(s: &str) -> (r: Option<Decimal>)
    ensures
        r == decimal_of(s@),
{
    let cs = chars_of(s);
    let n = cs.len();
    let mut k: usize = 0;
    while k < n && cs[k] != '.'
        invariant
            n == cs@.len(),
            cs@ == s@,
            k <= n,
            forall|j: int| 0 <= j < k ==> cs@[j] != '.',
        decreases n - k,
    {
        k = k + 1;
    }
    proof {
        lemma_point_index(s@, k as int);
    }
    let mut digits: Vec<char> = Vec::new();
    let mut i: usize = 0;
    while i < n
        invariant
            n == cs@.len(),
            cs@ == s@,
            k <= n,
            point_index(s@) == k,
            i <= n,
            digits@ == if i <= k {
                cs@.subrange(0, i as int)
            } else {
                cs@.subrange(0, k as int) + cs@.subrange(k + 1, i as int)
            },
        decreases n - i,
    {
        if i != k {
            digits.push(cs[i]);
        }
        i = i + 1;
        proof {
            if i <= k {
                assert(digits@ =~= cs@.subrange(0, i as int));
            } else if i == k + 1 {
                assert(digits@ =~= cs@.subrange(0, k as int) + cs@.subrange(k + 1, i as int));
            } else {
                assert(digits@ =~= cs@.subrange(0, k as int) + cs@.subrange(k + 1, i as int));
            }
        }
    }
    let ghost whole = whole_part(s@);
    let ghost frac = fraction_part(s@);
    proof {
        if k < n {
            assert(digits@ =~= whole + frac);
        } else {
            assert(cs@.subrange(0, n as int) =~= cs@);
            assert(digits@ =~= whole + frac);
        }
    }
    let m = digits.len();
    if m == 0 {
        return None;
    }
    let mut units: u64 = 0;
    let mut j: usize = 0;
    while j < m
        invariant
            m == digits@.len(),
            whole == whole_part(s@),
            frac == fraction_part(s@),
            digits@ == whole + frac,
            j <= m,
            all_digits(digits@.subrange(0, j as int)),
            units == digits_value(digits@.subrange(0, j as int)),
        decreases m - j,
    {
        let c = digits[j];
        proof {
            assert(digits@.subrange(0, j + 1).drop_last() =~= digits@.subrange(0, j as int));
            assert(digits@.subrange(0, j + 1).last() == c);
        }
        if !('0' <= c && c <= '9') {
            proof {
                assert(digits@[j as int] == c);
                if j < whole.len() {
                    assert(whole[j as int] == c);
                } else {
                    assert(frac[j - whole.len()] == c);
                }
                assert(!is_digit(c));
                assert(!all_digits(whole) || !all_digits(frac));
            }
            return None;
        }
        let d = (c as u32 - '0' as u32) as u64;
        let next = match units.checked_mul(10) {
            Some(t) => t.checked_add(d),
            None => None,
        };
        match next {
            Some(v) => {
                units = v;
            },
            None => {
                proof {
                    assert(digits_value(digits@.subrange(0, j + 1)) == units * 10 + d);
                    if all_digits(whole) && all_digits(frac) {
                        assert(all_digits(digits@)) by {
                            assert forall|x: int| 0 <= x < digits@.len() implies is_digit(#[trigger] digits@[x]) by {
                                if x < whole.len() {
                                    assert(digits@[x] == whole[x]);
                                } else {
                                    assert(digits@[x] == frac[x - whole.len()]);
                                }
                            }
                        }
                        lemma_digits_prefix(digits@, j + 1);
                    }
                }
                return None;
            },
        }
        j = j + 1;
        proof {
            assert forall|x: int| 0 <= x < j implies is_digit(#[trigger] digits@.subrange(0, j as int)[x]) by {
                if x < j - 1 {
                    assert(digits@.subrange(0, j as int)[x] == digits@.subrange(0, j - 1)[x]);
                }
            }
        }
    }
    proof {
        assert(digits@.subrange(0, m as int) =~= digits@);
        assert forall|x: int| 0 <= x < whole.len() implies is_digit(#[trigger] whole[x]) by {
            assert(whole[x] == digits@[x]);
        }
        assert forall|x: int| 0 <= x < frac.len() implies is_digit(#[trigger] frac[x]) by {
            assert(frac[x] == digits@[x + whole.len()]);
        }
    }
    Some(Decimal { units, scale: n - k - if k < n { 1usize } else { 0usize } })
}

} // verus!
