use vstd::prelude::*;
use vstd::string::*;

verus! {

/// One decimal digit.
pub open spec fn is_digit(c: char) -> bool {
    48 <= c as int <= 57
}

pub open spec fn all_digits(s: Seq<char>) -> bool {
    forall|i: int| 0 <= i < s.len() ==> is_digit(#[trigger] s[i])
}

/// The value of a digit string, most significant digit first.
pub open spec fn digits_val(s: Seq<char>) -> int
    decreases s.len(),
{
    if s.len() == 0 {
        0
    } else {
        digits_val(s.drop_last()) * 10 + (s.last() as int - 48)
    }
}

/// The digits of the number, after any single leading sign.
pub open spec fn body_of(s: Seq<char>) -> Seq<char> {
    if s.len() > 0 && (s[0] == '-' || s[0] == '+') {
        s.skip(1)
    } else {
        s
    }
}

pub open spec fn is_neg(s: Seq<char>) -> bool {
    s.len() > 0 && s[0] == '-'
}

/// The text of a decimal signed 64-bit integer: an optional sign,
/// then at least one digit, the value within the type's range.
pub open spec fn valid_i64_text(s: Seq<char>) -> bool {
    &&& body_of(s).len() > 0
    &&& all_digits(body_of(s))
    &&& (if is_neg(s) {
        digits_val(body_of(s)) <= 9223372036854775808
    } else {
        digits_val(body_of(s)) <= 9223372036854775807
    })
}

pub open spec fn i64_val(s: Seq<char>) -> int {
    if is_neg(s) {
        -digits_val(body_of(s))
    } else {
        digits_val(body_of(s))
    }
}

proof fn lemma_digits_val_nonneg(s: Seq<char>)
    requires
        all_digits(s),
    ensures
        digits_val(s) >= 0,
    decreases s.len(),
{
    if s.len() > 0 {
        assert(all_digits(s.drop_last()));
        lemma_digits_val_nonneg(s.drop_last());
    }
}

/// The value of a digit string is at least the value of any prefix.
proof fn lemma_digits_prefix(s: Seq<char>, k: int)
    requires
        all_digits(s),
        0 <= k <= s.len(),
    ensures
        digits_val(s) >= digits_val(s.subrange(0, k)),
    decreases s.len() - k,
{
    if k == s.len() {
        assert(s.subrange(0, k) =~= s);
    } else {
        let p = s.subrange(0, k + 1);
        assert(p.drop_last() =~= s.subrange(0, k));
        assert(all_digits(s.subrange(0, k)));
        lemma_digits_val_nonneg(s.subrange(0, k));
        assert(digits_val(p) == digits_val(s.subrange(0, k)) * 10 + (s[k] as int - 48));
        lemma_digits_prefix(s, k + 1);
    }
}

/// Parses a decimal signed 64-bit integer, exactly when the text is
/// one: an optional sign, then decimal digits, within range.
pub fn parse_i64(s: &str) -> (r: Option<i64>)
    ensures
        (match r {
            Some(v) => valid_i64_text(s@) && v as int == i64_val(s@),
            None => !valid_i64_text(s@),
        }),
{
    let ghost whole = s@;
    let n = s.unicode_len();
    if n == 0 {
        return None;
    }
    let c0 = s.get_char(0);
    let neg = c0 == '-';
    let start: usize = if neg || c0 == '+' {
        1
    } else {
        0
    };
    if start == n {
        return None;
    }
    proof {
        assert(body_of(whole) =~= whole.subrange(start as int, n as int));
    }
    let limit: u64 = if neg {
        9223372036854775808
    } else {
        9223372036854775807
    };
    let mut mag: u64 = 0;
    let mut i: usize = start;
    while i < n
        invariant
            start <= i <= n,
            n == whole.len(),
            whole == s@,
            body_of(whole) =~= whole.subrange(start as int, n as int),
            start < n,
            neg == is_neg(whole),
            limit == if neg {
                9223372036854775808u64
            } else {
                9223372036854775807u64
            },
            all_digits(whole.subrange(start as int, i as int)),
            mag == digits_val(whole.subrange(start as int, i as int)),
            mag <= limit,
        decreases n - i,
    {
        let c = s.get_char(i);
        let u = c as u32;
        if u < 48 || u > 57 {
            proof {
                assert(!is_digit(body_of(whole)[i - start]));
            }
            return None;
        }
        let d = (u - 48) as u64;
        if mag > (limit - d) / 10 {
            proof {
                let pre = whole.subrange(start as int, i + 1);
                assert(pre.drop_last() =~= whole.subrange(start as int, i as int));
                assert(digits_val(pre) == mag * 10 + d);
                assert(mag * 10 + d > limit) by (nonlinear_arith)
                    requires
                        mag > (limit - d) / 10,
                        d <= 9,
                        limit >= 9,
                ;
                if all_digits(body_of(whole)) {
                    assert(pre =~= body_of(whole).subrange(0, i + 1 - start));
                    lemma_digits_prefix(body_of(whole), i + 1 - start);
                }
            }
            return None;
        }
        proof {
            let pre = whole.subrange(start as int, i + 1);
            assert(pre.drop_last() =~= whole.subrange(start as int, i as int));
            assert(mag * 10 + d <= limit) by (nonlinear_arith)
                requires
                    mag <= (limit - d) / 10,
                    d <= limit,
            ;
        }
        mag = mag * 10 + d;
        i = i + 1;
    }
    proof {
        assert(whole.subrange(start as int, n as int) =~= body_of(whole));
    }
    if neg {
        if mag == 9223372036854775808 {
            Some(i64::MIN)
        } else {
            Some(-(mag as i64))
        }
    } else {
        Some(mag as i64)
    }
}

} // verus!
