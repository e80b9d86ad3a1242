//! Validation of the get-by-id path parameter. A raw path segment is accepted
//! exactly when it parses as a decimal integer (with an optional leading `+`,
//! which standard integer parsing tolerates) whose
//! value lies in the inclusive range 1 to 150. Anything else — empty input, a
//! non-digit character, a value out of range — is a validation failure, and is
//! decided before any store access.

use vstd::prelude::*;
use vstd::string::StrSliceExecFns;

use crate::digits::{
    all_dec_digits, dec_rep, dec_val, is_dec_digit, lemma_dec_rep_val, lemma_dec_val_take_le,
    lemma_dec_val_take_step,
};
use crate::errors::UserError;

verus! {

/// The smallest id the service accepts.
pub open spec fn min_id() -> int {
    1
}

/// The largest id the service accepts.
pub open spec fn max_id() -> int {
    150
}

/// The digit portion of a raw path segment: the whole segment, or the rest of
/// it when it carries a leading `+`.
pub open spec fn digits_part(s: Seq<char>) -> Seq<char> {
    if s.len() > 0 && s[0] == '+' {
        s.drop_first()
    } else {
        s
    }
}

/// True exactly of the raw segments the get-by-id endpoint accepts: the digit
/// portion is non-empty, all digits, and denotes a value in range.
pub open spec fn parses_in_range(s: Seq<char>) -> bool {
    let t = digits_part(s);
    &&& t.len() > 0
    &&& all_dec_digits(t)
    &&& min_id() <= dec_val(t) <= max_id()
}

/// The id an accepted raw segment denotes.
pub open spec fn parsed_id(s: Seq<char>) -> int {
    dec_val(digits_part(s)) as int
}

/// True of ids inside the accepted range.
pub open spec fn id_in_range_spec(v: int) -> bool {
    min_id() <= v <= max_id()
}

/// The decimal rendering of a nonnegative integer parses back to exactly
/// that integer, and it passes validation exactly when the value lies in the
/// accepted range: rendering and parsing of ids are inverse to one another.
pub proof fn lemma_render_then_parse(v: nat)
    ensures
        digits_part(dec_rep(v)) == dec_rep(v),
        parsed_id(dec_rep(v)) == v,
        parses_in_range(dec_rep(v)) == (min_id() <= v <= max_id()),
{
    lemma_dec_rep_val(v);
    assert(is_dec_digit(dec_rep(v)[0]));
    assert(dec_rep(v)[0] != '+');
}

/// Checks an already-parsed id against the accepted range.
pub fn id_in_range(v: i32) -> (ok: bool)
    ensures
        ok == id_in_range_spec(v as int),
{
    1 <= v && v <= 150
}

/// Parses and validates the raw get-by-id path segment.
///
/// Returns the id exactly when the segment is a decimal integer in the
/// accepted range; every other input is rejected as a validation failure,
/// with no other work done.
pub fn parse_and_validate_id(raw: &str) -> (r: Result<i32, UserError>)
    ensures
        match r {
            Ok(v) => parses_in_range(raw@) && v == parsed_id(raw@) && id_in_range_spec(v as int),
            Err(e) => !parses_in_range(raw@) && e == UserError::ValidationError,
        },
{
    let len = raw.unicode_len();
    let mut start: usize = 0;
    if len > 0 && raw.get_char(0) == '+' {
        start = 1;
    }
    let ghost t = digits_part(raw@);
    if start >= len {
        // The digit portion is empty.
        return Err(UserError::ValidationError);
    }
    assert(t.len() == len - start);
    assert(forall|k: int| 0 <= k < t.len() ==> t[k] == raw@[k + start]);
    let mut acc: u32 = 0;
    let mut j: usize = start;
    while j < len
        invariant
            start <= j <= len,
            len == raw@.len(),
            start == 0 || start == 1,
            start == 1 ==> len > 0 && raw@[0] == '+',
            start == 0 ==> !(len > 0 && raw@[0] == '+'),
            t == digits_part(raw@),
            t.len() == len - start,
            forall|k: int| 0 <= k < t.len() ==> t[k] == raw@[k + start],
            all_dec_digits(t.take(j - start)),
            acc == dec_val(t.take(j - start)),
            acc <= 150,
        decreases len - j,
    {
        let c = raw.get_char(j);
        let u = c as u32;
        if u < 48 || u > 57 {
            assert(!is_dec_digit(t[j - start]));
            return Err(UserError::ValidationError);
        }
        proof {
            lemma_dec_val_take_step(t, j - start);
            assert(t.take(j - start + 1).drop_last() =~= t.take(j - start));
        }
        acc = acc * 10 + (u - 48);
        assert(acc == dec_val(t.take(j + 1 - start)));
        assert(all_dec_digits(t.take(j + 1 - start)));
        if acc > 150 {
            proof {
                lemma_dec_val_take_le(t, j + 1 - start);
            }
            return Err(UserError::ValidationError);
        }
        j += 1;
    }
    assert(t.take(len - start) =~= t);
    if acc == 0 {
        return Err(UserError::ValidationError);
    }
    Ok(acc as i32)
}

} // verus!
