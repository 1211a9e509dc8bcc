//! Decimal parsing of the client-supplied candidate size.
//!
//! A size token is accepted only when it is a non-empty run of decimal
//! digits whose value stays within [`MAX_CANDIDATE_SIZE`]; an absurdly
//! large size is malformed input, rejected before any quota arithmetic
//! rather than clamped.

use vstd::prelude::*;

verus! {

/// The largest candidate size a client may submit, in bytes. Together with
/// the quota arithmetic over mathematical integers this keeps every quota
/// comparison free of overflow.
pub const MAX_CANDIDATE_SIZE: u64 = 0x7fff_ffff_ffff_ffff;

/// Whether `c` is an ASCII decimal digit.
pub open spec fn is_dec_digit(c: char) -> bool {
    48 <= (c as u32) && (c as u32) <= 57
}

/// The numeric value of an ASCII decimal digit.
pub open spec fn dec_digit_value(c: char) -> int {
    c as u32 - 48
}

/// Whether every character of `s` is an ASCII decimal digit.
pub open spec fn all_dec_digits(s: Seq<char>) -> bool {
    forall|i: int| 0 <= i < s.len() ==> is_dec_digit(#[trigger] s[i])
}

/// The value of `s` read as a decimal numeral, most significant digit first.
pub open spec fn dec_value(s: Seq<char>) -> int
    decreases s.len(),
{
    if s.len() == 0 {
        0
    } else {
        dec_value(s.drop_last()) * 10 + dec_digit_value(s.last())
    }
}

/// A size token is well formed when it is a non-empty digit run whose value
/// does not exceed [`MAX_CANDIDATE_SIZE`].
pub open spec fn valid_size_token(s: Seq<char>) -> bool {
    s.len() > 0 && all_dec_digits(s) && dec_value(s) <= MAX_CANDIDATE_SIZE
}

/// A digit run never denotes a negative value.
pub proof fn lemma_dec_value_nonneg(s: Seq<char>)
    requires
        all_dec_digits(s),
    ensures
        dec_value(s) >= 0,
    decreases s.len(),
{
    if s.len() > 0 {
        assert forall|i: int| 0 <= i < s.drop_last().len() implies is_dec_digit(
            #[trigger] s.drop_last()[i],
        ) by {
            assert(s.drop_last()[i] == s[i]);
        }
        lemma_dec_value_nonneg(s.drop_last());
        assert(is_dec_digit(s[s.len() - 1]));
    }
}

/// Parses a candidate-size token. Returns the value exactly when the token
/// is a well-formed size: non-empty, all decimal digits, and no larger than
/// [`MAX_CANDIDATE_SIZE`].
pub fn parse_size(s: &str) -> (r: Option<u64>)
    ensures
        r is Some <==> valid_size_token(s@),
        valid_size_token(s@) ==> r == Some(dec_value(s@) as u64),
{
    let len = s.unicode_len();
    if len == 0 {
        return None;
    }
    let mut acc: u128 = 0;
    let mut i: usize = 0;
    while i < len
        invariant
            0 < len == s@.len(),
            0 <= i <= len,
            all_dec_digits(s@.subrange(0, i as int)),
            dec_value(s@.subrange(0, i as int)) <= MAX_CANDIDATE_SIZE ==> acc == dec_value(
                s@.subrange(0, i as int),
            ),
            dec_value(s@.subrange(0, i as int)) > MAX_CANDIDATE_SIZE ==> acc
                > MAX_CANDIDATE_SIZE as u128,
            acc as int <= 10 * (MAX_CANDIDATE_SIZE as int) + 9,
        decreases len - i,
    {
        let c = s.get_char(i);
        let cv = c as u32;
        if cv < 48 || cv > 57 {
            assert(!is_dec_digit(s@[i as int]));
            assert(!all_dec_digits(s@));
            return None;
        }
        let d = (cv - 48) as u128;
        proof {
            let p = s@.subrange(0, i as int);
            let q = s@.subrange(0, i as int + 1);
            assert(q.drop_last() =~= p);
            assert(q.last() == s@[i as int]);
            assert forall|j: int| 0 <= j < q.len() implies is_dec_digit(#[trigger] q[j]) by {
                if j < i {
                    assert(q[j] == p[j]);
                }
            }
        }
        if acc > MAX_CANDIDATE_SIZE as u128 {
            acc = MAX_CANDIDATE_SIZE as u128 + 1;
        } else {
            acc = acc * 10 + d;
        }
        i = i + 1;
    }
    proof {
        assert(s@.subrange(0, len as int) =~= s@);
    }
    if acc <= MAX_CANDIDATE_SIZE as u128 {
        Some(acc as u64)
    } else {
        None
    }
}

} // verus!
