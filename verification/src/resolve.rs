//! Fuzzy resolution: a user-supplied substring pattern is held against the
//! candidate records returned by one query, and either exactly one
//! (name, namespace) identity comes out, or the resolution fails — with
//! `NotFound` when nothing matched, or with `Ambiguous` and the complete
//! match list, in query order, when more than one record matched.  No
//! tie-break heuristic: any count other than one is a hard failure.

use vstd::prelude::*;

use crate::record::{PodRecord, ResolveError, ResolvedTarget};
use crate::text::{contains_pattern, is_match};

verus! {

/// The (name, namespace) pairs of the records whose name contains `pat`,
/// in the order the records were given.
pub open spec fn matching_targets(pat: Seq<char>, records: Seq<PodRecord>) -> Seq<
    (Seq<char>, Seq<char>),
>
    decreases records.len(),
{
    if records.len() == 0 {
        Seq::empty()
    } else {
        let rest = matching_targets(pat, records.drop_last());
        let last = records.last();
        if is_match(pat, last.name@) {
            rest.push((last.name@, last.namespace@))
        } else {
            rest
        }
    }
}

/// What a target list states, record for record, about a match list.
pub open spec fn targets_match(
    targets: Seq<ResolvedTarget>,
    expected: Seq<(Seq<char>, Seq<char>)>,
) -> bool {
    &&& targets.len() == expected.len()
    &&& forall|i: int|
        0 <= i < targets.len() ==> (#[trigger] targets[i].name@) == expected[i].0
            && targets[i].namespace@ == expected[i].1
}

/// Whether a record's name contains the pattern.
pub open spec fn record_matches(pat: Seq<char>, r: PodRecord) -> bool {
    is_match(pat, r.name@)
}

/// The match list is exactly the filtered match set, record for record and
/// in the order the query returned the records: the candidates that an
/// ambiguous resolution reports have the same cardinality, membership and
/// order as the records whose name contains the pattern.
pub proof fn lemma_matching_targets_is_filter(pat: Seq<char>, records: Seq<PodRecord>)
    ensures
        matching_targets(pat, records) == records.filter(|r: PodRecord| record_matches(pat, r))
            .map_values(|r: PodRecord| (r.name@, r.namespace@)),
    decreases records.len(),
{
    reveal(Seq::filter);
    if records.len() == 0 {
        assert(matching_targets(pat, records) =~= records.filter(
            |r: PodRecord| record_matches(pat, r),
        ).map_values(|r: PodRecord| (r.name@, r.namespace@)));
    } else {
        lemma_matching_targets_is_filter(pat, records.drop_last());
        assert(matching_targets(pat, records) =~= records.filter(
            |r: PodRecord| record_matches(pat, r),
        ).map_values(|r: PodRecord| (r.name@, r.namespace@)));
    }
}

/// A pattern that matches no record's name yields the empty match list, so
/// its resolution fails with `NotFound`.
pub proof fn lemma_no_match_empty(pat: Seq<char>, records: Seq<PodRecord>)
    requires
        forall|i: int| 0 <= i < records.len() ==> !is_match(pat, (#[trigger] records[i]).name@),
    ensures
        matching_targets(pat, records).len() == 0,
    decreases records.len(),
{
    if records.len() > 0 {
        assert(records.last() == records[records.len() - 1]);
        assert(forall|i: int|
            0 <= i < records.drop_last().len() ==> (#[trigger] records.drop_last()[i])
                == records[i]);
        lemma_no_match_empty(pat, records.drop_last());
    }
}

/// An empty candidate set yields the empty match list for every pattern,
/// so resolution against it fails with `NotFound`, whatever the pattern.
pub proof fn lemma_empty_candidates_not_found(pat: Seq<char>)
    ensures
        matching_targets(pat, Seq::<PodRecord>::empty()).len() == 0,
{
}

/// A pattern that matches exactly one record's name yields that record's
/// identity as the whole match list, so its resolution succeeds with that
/// (name, namespace) pair.
pub proof fn lemma_unique_match_resolves(pat: Seq<char>, records: Seq<PodRecord>, w: int)
    requires
        0 <= w < records.len(),
        is_match(pat, records[w].name@),
        forall|i: int|
            0 <= i < records.len() && i != w ==> !is_match(pat, (#[trigger] records[i]).name@),
    ensures
        matching_targets(pat, records) =~= seq![(records[w].name@, records[w].namespace@)],
    decreases records.len(),
{
    assert(records.last() == records[records.len() - 1]);
    assert(forall|i: int|
        0 <= i < records.drop_last().len() ==> (#[trigger] records.drop_last()[i]) == records[i]);
    if w == records.len() - 1 {
        lemma_no_match_empty(pat, records.drop_last());
    } else {
        lemma_unique_match_resolves(pat, records.drop_last(), w);
    }
}

/// Resolves a pattern against one query's candidate records.
///
/// Exactly one record whose name contains the pattern: its identity is
/// returned.  None: `NotFound` with the pattern.  Two or more: `Ambiguous`
/// with every matching candidate, in the order the query returned them.
pub fn resolve(pattern: &str, records: &Vec<PodRecord>) -> (r: Result<
    ResolvedTarget,
    ResolveError,
>)
    ensures
        ({
            let m = matching_targets(pattern@, records@);
            match r {
                Ok(t) => m.len() == 1 && t.name@ == m[0].0 && t.namespace@ == m[0].1,
                Err(ResolveError::NotFound(p)) => m.len() == 0 && p@ == pattern@,
                Err(ResolveError::Ambiguous(c)) => m.len() >= 2 && targets_match(c@, m),
            }
        }),
{
    let mut matched: Vec<ResolvedTarget> = Vec::new();
    let n = records.len();
    let mut i: usize = 0;
    while i < n
        invariant
            i <= n,
            n == records@.len(),
            targets_match(matched@, matching_targets(pattern@, records@.subrange(0, i as int))),
        decreases n - i,
    {
        proof {
            assert(records@.subrange(0, i + 1).drop_last() =~= records@.subrange(0, i as int));
            assert(records@.subrange(0, i + 1).last() == records@[i as int]);
        }
        let rec = &records[i];
        if contains_pattern(rec.name.as_str(), pattern) {
            let target = ResolvedTarget {
                name: rec.name.clone(),
                namespace: rec.namespace.clone(),
            };
            matched.push(target);
        }
        i += 1;
    }
    proof {
        assert(records@.subrange(0, n as int) =~= records@);
    }
    if matched.len() == 0 {
        Err(ResolveError::NotFound(pattern.to_owned()))
    } else if matched.len() == 1 {
        let target = matched.pop().unwrap();
        Ok(target)
    } else {
        Err(ResolveError::Ambiguous(matched))
    }
}

} // verus!
