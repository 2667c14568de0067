use vstd::prelude::*;
use vstd::arithmetic::div_mod::{lemma_fundamental_div_mod, lemma_mod_bound};
use vstd::slice::slice_index_get;
use vstd::string::StringSliceAdditionalSpecFns;

verus! {

/// An ASCII decimal digit, as a byte.
pub open spec fn is_dec_digit(b: u8) -> bool {
    48 <= b <= 57
}

/// Every byte of `s` is an ASCII decimal digit.
pub open spec fn all_dec_digits(s: Seq<u8>) -> bool {
    forall|i: int| 0 <= i < s.len() ==> is_dec_digit(#[trigger] s[i])
}

/// The number written in `s` in base 10, most significant digit first.
pub open spec fn dec_value(s: Seq<u8>) -> int
    decreases s.len(),
{
    if s.len() == 0 {
        0
    } else {
        10 * dec_value(s.drop_last()) + (s.last() - 48)
    }
}

/// A header value parses as a non-negative 64-bit integer exactly when it is
/// a non-empty run of decimal digits whose value fits in a `u64`.
pub open spec fn u64_parseable(s: Seq<u8>) -> bool {
    &&& s.len() > 0
    &&& all_dec_digits(s)
    &&& dec_value(s) <= u64::MAX
}

/// A run of digits denotes a non-negative number.
pub proof fn lemma_dec_value_nonneg(s: Seq<u8>)
    requires
        all_dec_digits(s),
    ensures
        dec_value(s) >= 0,
    decreases s.len(),
{
    if s.len() > 0 {
        assert(all_dec_digits(s.drop_last())) by {
            assert forall|i: int| 0 <= i < s.drop_last().len() implies is_dec_digit(
                #[trigger] s.drop_last()[i],
            ) by {
                assert(s.drop_last()[i] == s[i]);
            }
        }
        lemma_dec_value_nonneg(s.drop_last());
    }
}

/// Reading more digits never makes the number smaller: the value of any
/// prefix of a digit run is at most the value of the whole run.
pub proof fn lemma_dec_value_prefix_le(s: Seq<u8>, i: int)
    requires
        all_dec_digits(s),
        0 <= i <= s.len(),
    ensures
        dec_value(s.take(i)) <= dec_value(s),
    decreases s.len() - i,
{
    if i < s.len() {
        assert(s.take(i + 1).drop_last() =~= s.take(i));
        assert(s.take(i + 1).last() == s[i]);
        assert(all_dec_digits(s.take(i))) by {
            assert forall|j: int| 0 <= j < s.take(i).len() implies is_dec_digit(
                #[trigger] s.take(i)[j],
            ) by {
                assert(s.take(i)[j] == s[j]);
            }
        }
        lemma_dec_value_nonneg(s.take(i));
        assert(dec_value(s.take(i + 1)) == 10 * dec_value(s.take(i)) + (s[i] - 48));
        lemma_dec_value_prefix_le(s, i + 1);
    } else {
        assert(s.take(i) =~= s);
    }
}

/// Parse a string as a non-negative base-10 64-bit integer.  Exactly the
/// strings whose bytes are a non-empty run of ASCII digits with a value that
/// fits in a `u64` are accepted; anything else (empty, a sign, spaces, any
/// other character, or a value past `u64::MAX`) is rejected.
pub fn parse_u64(s: &str) -> (r: Option<u64>)
    ensures
        r is Some <==> u64_parseable(s.spec_bytes()),
        r matches Some(v) ==> v == dec_value(s.spec_bytes()),
{
    let bytes: &[u8] = s.as_bytes();
    let ghost sv: Seq<u8> = s.spec_bytes();
    let n: usize = bytes.len();
    if n == 0 {
        return None;
    }
    let mut i: usize = 0;
    let mut value: u64 = 0;
    while i < n
        invariant
            sv == s.spec_bytes(),
            bytes@ == sv,
            n == sv.len(),
            i <= n,
            all_dec_digits(sv.take(i as int)),
            value == dec_value(sv.take(i as int)),
        decreases n - i,
    {
        let b: u8 = *slice_index_get(bytes, i);
        if b < 48 || b > 57 {
            proof {
                assert(!is_dec_digit(sv[i as int]));
                assert(!all_dec_digits(sv));
            }
            return None;
        }
        let d: u64 = (b - 48) as u64;
        proof {
            assert(sv.take(i as int + 1).drop_last() =~= sv.take(i as int));
            assert(sv.take(i as int + 1).last() == sv[i as int]);
            assert(dec_value(sv.take(i as int + 1)) == 10 * dec_value(sv.take(i as int)) + (
            sv[i as int] - 48));
            assert(all_dec_digits(sv.take(i as int + 1))) by {
                assert forall|j: int| 0 <= j < sv.take(i as int + 1).len() implies is_dec_digit(
                    #[trigger] sv.take(i as int + 1)[j],
                ) by {
                    if j < i as int {
                        assert(sv.take(i as int + 1)[j] == sv.take(i as int)[j]);
                    } else {
                        assert(sv.take(i as int + 1)[j] == sv[i as int]);
                    }
                }
            }
            lemma_fundamental_div_mod(u64::MAX - d, 10);
            lemma_mod_bound(u64::MAX - d, 10);
        }
        if value > (u64::MAX - d) / 10 {
            proof {
                // value * 10 overshoots even the largest representable value.
                assert(10 * (value as int) >= 10 * (((u64::MAX - d) / 10) as int + 1));
                assert(10 * (value as int) + d > u64::MAX);
                if all_dec_digits(sv) {
                    lemma_dec_value_prefix_le(sv, i as int + 1);
                }
                assert(!u64_parseable(sv));
            }
            return None;
        }
        proof {
            assert(10 * (value as int) <= 10 * (((u64::MAX - d) / 10) as int));
            assert(10 * (value as int) + d <= u64::MAX);
        }
        value = value * 10 + d;
        i = i + 1;
    }
    proof {
        assert(sv.take(i as int) =~= sv);
        lemma_dec_value_nonneg(sv);
    }
    Some(value)
}

} // verus!
