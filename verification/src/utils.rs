//! The time comparator, and how many decimal places a written number has.

use crate::models::DateTimeConstraint;
use crate::text::{
    find, first_occurrence, lemma_first_occurrence, slice, strip_trailing, without_trailing,
};
use crate::time::Timestamp;
use vstd::prelude::*;

verus! {

impl DateTimeConstraint {
    /// Whether `t` lies in the interval, both ends included.
    pub open spec fn contains(self, t: Timestamp) -> bool {
        self.start_time.not_after(t) && t.not_after(self.end_time)
    }
}

/// Tests whether a time lies within a time window, both ends included.
pub fn validate_datetime(actual_time: &Timestamp, constraint: &DateTimeConstraint) -> (res: Result<
    bool,
    String,
>)
    ensures
        res matches Ok(within) && within == constraint.contains(*actual_time),
{
    Ok(
        constraint.start_time.is_not_after(actual_time) && actual_time.is_not_after(
            &constraint.end_time,
        ),
    )
}

/// The number of decimal places of a written number: the characters behind
/// its first point, not counting zeros at the end; none without a point.
pub open spec fn decimal_places(text: Seq<char>) -> nat {
    match first_occurrence(text, "."@) {
        Some(at) => without_trailing(text.subrange(at + 1, text.len() as int), '0').len(),
        None => 0,
    }
}

/// Counts the decimal places of a written number.
pub fn count_decimal_places(num_str: &str) -> (places: usize)
    ensures
        places == decimal_places(num_str@),
{
    proof {
        reveal_strlit(".");
    }
    match find(num_str, ".") {
        Some(at) => {
            proof {
                lemma_first_occurrence(num_str@, "."@, 0);
            }
            let n = num_str.unicode_len();
            let decimal_part = slice(num_str, at + 1, n);
            let significant = strip_trailing(decimal_part.as_str(), '0');
            significant.as_str().unicode_len()
        },
        None => 0,
    }
}

} // verus!
