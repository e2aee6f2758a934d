//! Relative-age formatting: a timestamp difference in seconds is rendered
//! as a single coarse bucket — seconds under a minute, minutes under an
//! hour, hours under a day, else days — by integer division, no rounding.

use vstd::prelude::*;

use crate::text::{dec_int, i64_string, u64_string};

verus! {

pub const SECONDS_PER_MINUTE: i64 = 60;

pub const SECONDS_PER_HOUR: i64 = 3600;

pub const SECONDS_PER_DAY: i64 = 86400;

/// The rank of the bucket an age falls in: seconds, minutes, hours, days.
pub open spec fn bucket_rank(diff: int) -> int {
    if diff < 60 {
        0
    } else if diff < 3600 {
        1
    } else if diff < 86400 {
        2
    } else {
        3
    }
}

/// The count displayed within the age's bucket.
pub open spec fn bucket_count(diff: int) -> int {
    if diff < 60 {
        diff
    } else if diff < 3600 {
        diff / 60
    } else if diff < 86400 {
        diff / 3600
    } else {
        diff / 86400
    }
}

/// The unit suffix of the age's bucket.
pub open spec fn bucket_unit(diff: int) -> char {
    if diff < 60 {
        's'
    } else if diff < 3600 {
        'm'
    } else if diff < 86400 {
        'h'
    } else {
        'd'
    }
}

/// The rendered age string: the bucket count followed by its unit.
pub open spec fn age_chars(diff: int) -> Seq<char> {
    dec_int(bucket_count(diff)) + seq![bucket_unit(diff)]
}

/// Formats an age, given as a difference in whole seconds, as its bucket
/// count and unit suffix.
pub fn format_age(diff: i64) -> (r: String)
    ensures
        r@ == age_chars(diff as int),
{
    proof {
        reveal_strlit("s");
        reveal_strlit("m");
        reveal_strlit("h");
        reveal_strlit("d");
    }
    if diff < SECONDS_PER_MINUTE {
        let mut r = i64_string(diff);
        r.append("s");
        proof {
            assert(r@ =~= age_chars(diff as int));
        }
        r
    } else if diff < SECONDS_PER_HOUR {
        let mut r = u64_string((diff / SECONDS_PER_MINUTE) as u64);
        r.append("m");
        proof {
            assert(r@ =~= age_chars(diff as int));
        }
        r
    } else if diff < SECONDS_PER_DAY {
        let mut r = u64_string((diff / SECONDS_PER_HOUR) as u64);
        r.append("h");
        proof {
            assert(r@ =~= age_chars(diff as int));
        }
        r
    } else {
        let mut r = u64_string((diff / SECONDS_PER_DAY) as u64);
        r.append("d");
        proof {
            assert(r@ =~= age_chars(diff as int));
        }
        r
    }
}

/// The rendered age of a record: its creation time subtracted from `now`,
/// or the "unknown age" sentinel when no creation time is known.
pub open spec fn age_label_chars(created_at: Option<i64>, now: int) -> Seq<char> {
    match created_at {
        Option::Some(c) => age_chars(now - c),
        Option::None => "unknown"@,
    }
}

/// Formats the age of a record created at `created_at` as seen at `now`,
/// both in seconds since the epoch; `None` renders as the sentinel.
pub fn age_label(created_at: &Option<i64>, now: i64) -> (r: String)
    requires
        (*created_at) matches Some(c) ==> i64::MIN <= now - c <= i64::MAX,
    ensures
        r@ == age_label_chars(*created_at, now as int),
{
    match created_at {
        Option::Some(c) => format_age(now - *c),
        Option::None => String::from_str("unknown"),
    }
}

/// Age bucketing is monotonic: of two ages, the older one never lands in
/// an earlier bucket, and within one bucket its count is never smaller.
pub proof fn lemma_age_bucket_monotonic(d1: int, d2: int)
    requires
        d1 <= d2,
    ensures
        bucket_rank(d1) <= bucket_rank(d2),
        bucket_rank(d1) == bucket_rank(d2) ==> bucket_count(d1) <= bucket_count(d2),
{
    if bucket_rank(d1) == bucket_rank(d2) {
        if 60 <= d1 && d2 < 3600 {
            vstd::arithmetic::div_mod::lemma_div_is_ordered(d1, d2, 60);
        } else if 3600 <= d1 && d2 < 86400 {
            vstd::arithmetic::div_mod::lemma_div_is_ordered(d1, d2, 3600);
        } else if 86400 <= d1 {
            vstd::arithmetic::div_mod::lemma_div_is_ordered(d1, d2, 86400);
        }
    }
}

} // verus!
