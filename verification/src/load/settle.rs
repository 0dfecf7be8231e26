//! Waiting until an index has been built.
use crate::connection::label;
use crate::load::error::{StoreError, StoreErrorView};
use crate::load::store::OpenSearchStore;
use vstd::prelude::*;
use vstd::string::*;

verus! {

/// The pause between two looks at the index, in nanoseconds.
pub const POLL_INTERVAL: u64 = 1_000_000_000;

/// How long no merge may run before the index counts as built, in nanoseconds.
pub const SETTLED_HOLD: u64 = 5_000_000_000;

/// After how long the wait is given up, in nanoseconds.
pub const TIMEOUT: u64 = 1_800_000_000_000;

/// What happened while waiting. Times are nanoseconds since the wait began.
#[derive(Debug)]
pub enum SettleSeen {
    /// The wait began or a pause is over.
    Awake { now: u64 },
    /// This many merges run.
    Merges { current: i64, now: u64 },
    /// The merges could not be counted.
    Uncounted(StoreError),
    /// The index, in which no merge has run since this time, was checked.
    Verified { since: u64, outcome: Result<(), StoreError> },
}

/// What to do next while waiting.
#[derive(Clone, Copy, Debug, PartialEq, Eq, Structural)]
pub enum SettleStep {
    CountMerges,
    Pause,
    /// No merge has run since this time, and long enough: check the index.
    Verify(u64),
    /// The index is built since this time, and was checked.
    Done(u64),
}

/// The wait: since when no merge has run, if none runs.
#[derive(Debug)]
pub struct Settling {
    pub settled_since: Option<u64>,
}

/// Since when no merge has run, after a count of merges.
pub open spec fn since_after(since: Option<u64>, current: i64, now: u64) -> Option<u64> {
    if current != 0 {
        None
    } else {
        match since {
            Some(t) => Some(t),
            None => Some(now),
        }
    }
}

/// Whether no merge has run for long enough.
pub open spec fn held(since: Option<u64>, now: u64) -> bool {
    since matches Some(t) && now - t >= SETTLED_HOLD
}

/// What follows what was seen, given since when no merge has run before it. The wait succeeds only
/// with an index that passed its check; any error ends it as it is.
pub open spec fn settle_next(index: Seq<char>, since: Option<u64>, seen: SettleSeen) -> Result<
    SettleStep,
    StoreErrorView,
> {
    match seen {
        SettleSeen::Awake { now } => if now >= TIMEOUT {
            Err(
                StoreErrorView::Other(
                    "timed out after 1800s waiting for merges to settle on "@ + label(index),
                ),
            )
        } else {
            Ok(SettleStep::CountMerges)
        },
        SettleSeen::Merges { current, now } => {
            let after = since_after(since, current, now);
            if held(after, now) {
                Ok(SettleStep::Verify(after->0))
            } else {
                Ok(SettleStep::Pause)
            }
        },
        SettleSeen::Uncounted(e) => Err(e@),
        SettleSeen::Verified { since: t, outcome: Ok(()) } => Ok(SettleStep::Done(t)),
        SettleSeen::Verified { since: _, outcome: Err(e) } => Err(e@),
    }
}

/// The outcome of a step of the wait.
pub open spec fn settle_result(r: Result<SettleStep, StoreError>) -> Result<
    SettleStep,
    StoreErrorView,
> {
    match r {
        Ok(s) => Ok(s),
        Err(e) => Err(e@),
    }
}

impl Settling {
    /// The wait at its beginning.
    pub fn new() -> (r: Settling)
        ensures
            r.settled_since is None,
    {
        Settling { settled_since: None }
    }
}

impl OpenSearchStore {
    /// Decides what to do next while waiting for the index to be built: no merge may run for a
    /// while, so that a lull between two waves of merges does not count, and then the index has to
    /// pass its check. It counts as built from the moment on from which no merge has run: neither
    /// the hold nor the check is part of the build.
    pub fn wait_for_indexing(&self, wait: &mut Settling, seen: SettleSeen) -> (r: Result<
        SettleStep,
        StoreError,
    >)
        ensures
            settle_result(r) == settle_next(self.index_name@, old(wait).settled_since, seen),
            match seen {
                SettleSeen::Merges { current, now } => final(wait).settled_since == since_after(
                    old(wait).settled_since,
                    current,
                    now,
                ),
                _ => final(wait).settled_since == old(wait).settled_since,
            },
    {
        match seen {
            SettleSeen::Awake { now } => {
                if now >= TIMEOUT {
                    let mut m = "timed out after 1800s waiting for merges to settle on ".to_owned();
                    let l = self.label();
                    m.append(l.as_str());
                    Err(StoreError::Other(m))
                } else {
                    Ok(SettleStep::CountMerges)
                }
            },
            SettleSeen::Merges { current, now } => {
                if current != 0 {
                    wait.settled_since = None;
                    return Ok(SettleStep::Pause);
                }
                let since: u64 = match wait.settled_since {
                    Some(t) => t,
                    None => now,
                };
                wait.settled_since = Some(since);
                if now >= since && now - since >= SETTLED_HOLD {
                    Ok(SettleStep::Verify(since))
                } else {
                    Ok(SettleStep::Pause)
                }
            },
            SettleSeen::Uncounted(e) => Err(e),
            SettleSeen::Verified { since, outcome } => match outcome {
                Ok(()) => Ok(SettleStep::Done(since)),
                Err(e) => Err(e),
            },
        }
    }
}

/// Since when no merge has run, after some counts of merges, each with its time.
pub open spec fn since_all(counts: Seq<(i64, u64)>) -> Option<u64>
    decreases counts.len(),
{
    if counts.len() == 0 {
        None
    } else {
        since_after(since_all(counts.drop_last()), counts.last().0, counts.last().1)
    }
}

/// The index is checked only after a stretch of counts in which no merge ran: the stretch
/// begins at the time that is given back, is preceded by a running merge or by nothing, reaches
/// to the last count, and is as long as it has to be.
pub proof fn law_settled_after_a_quiet_stretch(index: Seq<char>, counts: Seq<(i64, u64)>, since: u64)
    requires
        counts.len() > 0,
        settle_next(
            index,
            since_all(counts.drop_last()),
            SettleSeen::Merges { current: counts.last().0, now: counts.last().1 },
        ) == Ok::<SettleStep, StoreErrorView>(SettleStep::Verify(since)),
    ensures
        counts.last().1 - since >= SETTLED_HOLD,
        exists|first: int|
            {
                &&& 0 <= first < counts.len()
                &&& #[trigger] counts[first].1 == since
                &&& first == 0 || counts[first - 1].0 != 0
                &&& forall|i: int| first <= i < counts.len() ==> #[trigger] counts[i].0 == 0
            },
{
    let first = lemma_quiet_stretch(counts);
    assert(counts[first].1 == since);
}

proof fn lemma_quiet_stretch(counts: Seq<(i64, u64)>) -> (first: int)
    requires
        since_all(counts) is Some,
    ensures
        0 <= first < counts.len(),
        since_all(counts) == Some(counts[first].1),
        first == 0 || counts[first - 1].0 != 0,
        forall|i: int| first <= i < counts.len() ==> #[trigger] counts[i].0 == 0,
    decreases counts.len(),
{
    let rest = counts.drop_last();
    if since_all(rest) is None {
        if rest.len() > 0 {
            assert(rest.last() == counts[counts.len() - 2]);
        }
        counts.len() - 1
    } else {
        let first = lemma_quiet_stretch(rest);
        assert(rest[first] == counts[first]);
        if first > 0 {
            assert(rest[first - 1] == counts[first - 1]);
        }
        assert forall|i: int| first <= i < counts.len() implies #[trigger] counts[i].0 == 0 by {
            if i < rest.len() {
                assert(rest[i].0 == 0);
            }
        }
        first
    }
}

/// A stretch of counts in which no merge ran, and that is as long as it has to be, settles the
/// wait, as of the time at which it began.
pub proof fn law_a_quiet_stretch_settles(index: Seq<char>, counts: Seq<(i64, u64)>, first: int)
    requires
        0 <= first < counts.len(),
        first == 0 || counts[first - 1].0 != 0,
        forall|i: int| first <= i < counts.len() ==> #[trigger] counts[i].0 == 0,
        counts.last().1 - counts[first].1 >= SETTLED_HOLD,
    ensures
        settle_next(
            index,
            since_all(counts.drop_last()),
            SettleSeen::Merges { current: counts.last().0, now: counts.last().1 },
        ) == Ok::<SettleStep, StoreErrorView>(SettleStep::Verify(counts[first].1)),
{
    lemma_since_stretch(counts, first);
}

proof fn lemma_since_stretch(counts: Seq<(i64, u64)>, first: int)
    requires
        0 <= first < counts.len(),
        first == 0 || counts[first - 1].0 != 0,
        forall|i: int| first <= i < counts.len() ==> #[trigger] counts[i].0 == 0,
    ensures
        since_all(counts) == Some(counts[first].1),
    decreases counts.len(),
{
    let rest = counts.drop_last();
    assert(counts[counts.len() - 1].0 == 0);
    if first == counts.len() - 1 {
        if first > 0 {
            assert(rest.last() == counts[first - 1]);
        }
        assert(since_all(rest) is None);
    } else {
        assert forall|i: int| first <= i < rest.len() implies #[trigger] rest[i].0 == 0 by {
            assert(counts[i].0 == 0);
        }
        if first > 0 {
            assert(rest[first - 1] == counts[first - 1]);
        }
        lemma_since_stretch(rest, first);
    }
}

/// A merge that runs starts the stretch anew: the index is not checked with it, and what was quiet
/// before is forgotten.
pub proof fn law_a_running_merge_restarts_the_wait(
    index: Seq<char>,
    since: Option<u64>,
    current: i64,
    now: u64,
)
    requires
        current != 0,
    ensures
        settle_next(index, since, SettleSeen::Merges { current, now }) == Ok::<
            SettleStep,
            StoreErrorView,
        >(SettleStep::Pause),
        since_after(since, current, now) is None,
{
}

/// One round of the wait: when it began, and what the count of merges gave, and when.
pub struct Round {
    pub awake: u64,
    pub merges: Result<i64, StoreError>,
    pub counted: u64,
}

/// The counts of some rounds, each with its time; a round without one counts as a running merge.
pub open spec fn counts_of(rounds: Seq<Round>) -> Seq<(i64, u64)> {
    Seq::new(
        rounds.len(),
        |i: int|
            (
                match rounds[i].merges {
                    Ok(n) => n,
                    Err(_) => 1,
                },
                rounds[i].counted,
            ),
    )
}

/// How a round ends the wait, if it does, given since when no merge has run before it and what a
/// check of the index gives.
pub open spec fn round_outcome(
    index: Seq<char>,
    since: Option<u64>,
    round: Round,
    checked: Result<(), StoreError>,
) -> Option<Result<u64, StoreErrorView>> {
    match settle_next(index, since, SettleSeen::Awake { now: round.awake }) {
        Err(e) => Some(Err(e)),
        Ok(_) => match round.merges {
            Err(e) => match settle_next(index, since, SettleSeen::Uncounted(e)) {
                Err(e) => Some(Err(e)),
                Ok(_) => None,
            },
            Ok(current) => match settle_next(
                index,
                since,
                SettleSeen::Merges { current, now: round.counted },
            ) {
                Ok(SettleStep::Verify(t)) => match settle_next(
                    index,
                    since,
                    SettleSeen::Verified { since: t, outcome: checked },
                ) {
                    Ok(SettleStep::Done(t)) => Some(Ok(t)),
                    Ok(_) => None,
                    Err(e) => Some(Err(e)),
                },
                Ok(_) => None,
                Err(e) => Some(Err(e)),
            },
        },
    }
}

/// How the wait ends in the course of some rounds, if it does.
pub open spec fn wait_outcome(
    index: Seq<char>,
    rounds: Seq<Round>,
    checked: Result<(), StoreError>,
) -> Option<Result<u64, StoreErrorView>>
    decreases rounds.len(),
{
    if rounds.len() == 0 {
        None
    } else {
        match wait_outcome(index, rounds.drop_last(), checked) {
            Some(r) => Some(r),
            None => round_outcome(
                index,
                since_all(counts_of(rounds.drop_last())),
                rounds.last(),
                checked,
            ),
        }
    }
}

/// A wait that succeeds has seen a stretch of counts without a merge, from the time that is given
/// back on and as long as it has to be, preceded by a running merge or by nothing; and the check of
/// the index has passed.
pub proof fn law_the_wait_succeeds_with_a_checked_index(
    index: Seq<char>,
    rounds: Seq<Round>,
    checked: Result<(), StoreError>,
    since: u64,
)
    requires
        wait_outcome(index, rounds, checked) == Some(Ok::<u64, StoreErrorView>(since)),
    ensures
        checked is Ok,
        exists|first: int, last: int|
            {
                &&& 0 <= first <= last < rounds.len()
                &&& #[trigger] rounds[first].counted == since
                &&& #[trigger] rounds[last].counted - since >= SETTLED_HOLD
                &&& first == 0 || rounds[first - 1].merges != Ok::<i64, StoreError>(0)
                &&& forall|i: int|
                    first <= i <= last ==> #[trigger] rounds[i].merges == Ok::<i64, StoreError>(0)
            },
    decreases rounds.len(),
{
    let rest = rounds.drop_last();
    if wait_outcome(index, rest, checked) is Some {
        law_the_wait_succeeds_with_a_checked_index(index, rest, checked, since);
        let (first, last) = choose|first: int, last: int|
            {
                &&& 0 <= first <= last < rest.len()
                &&& #[trigger] rest[first].counted == since
                &&& #[trigger] rest[last].counted - since >= SETTLED_HOLD
                &&& first == 0 || rest[first - 1].merges != Ok::<i64, StoreError>(0)
                &&& forall|i: int|
                    first <= i <= last ==> #[trigger] rest[i].merges == Ok::<i64, StoreError>(0)
            };
        assert(rounds[first] == rest[first]);
        assert(rounds[last] == rest[last]);
        assert forall|i: int| first <= i <= last implies #[trigger] rounds[i].merges == Ok::<
            i64,
            StoreError,
        >(0) by {
            assert(rest[i] == rounds[i]);
        }
    } else {
        let counts = counts_of(rounds);
        assert(counts.drop_last() =~= counts_of(rest));
        assert(counts.last() == (rounds.last().merges->Ok_0, rounds.last().counted));
        law_settled_after_a_quiet_stretch(index, counts, since);
        let first = choose|first: int|
            {
                &&& 0 <= first < counts.len()
                &&& #[trigger] counts[first].1 == since
                &&& first == 0 || counts[first - 1].0 != 0
                &&& forall|i: int| first <= i < counts.len() ==> #[trigger] counts[i].0 == 0
            };
        let last = rounds.len() - 1;
        assert(rounds[first].counted == since);
        assert(rounds[last].counted - since >= SETTLED_HOLD);
        if first > 0 {
            assert(counts[first - 1].0 != 0);
        }
        assert forall|i: int| first <= i <= last implies #[trigger] rounds[i].merges == Ok::<
            i64,
            StoreError,
        >(0) by {
            assert(counts[i].0 == 0);
        }
    }
}

/// A wait that fails hands on the error that it met: that of a count, that of the check, or that
/// it took too long, which it is in any round that begins after the limit.
pub proof fn law_the_wait_fails_with_the_error_it_met(
    index: Seq<char>,
    rounds: Seq<Round>,
    checked: Result<(), StoreError>,
)
    ensures
        wait_outcome(index, rounds, checked) matches Some(Err(e)) ==> {
            ||| checked matches Err(c) && e == c@
            ||| exists|i: int|
                0 <= i < rounds.len() && (#[trigger] rounds[i].merges matches Err(c) && e == c@)
            ||| e == StoreErrorView::Other(
                "timed out after 1800s waiting for merges to settle on "@ + label(index),
            ) && exists|i: int| 0 <= i < rounds.len() && #[trigger] rounds[i].awake >= TIMEOUT
        },
        (rounds.len() > 0 && wait_outcome(index, rounds.drop_last(), checked) is None
            && rounds.last().awake >= TIMEOUT) ==> wait_outcome(index, rounds, checked) == Some(
            Err::<u64, StoreErrorView>(
                StoreErrorView::Other(
                    "timed out after 1800s waiting for merges to settle on "@ + label(index),
                ),
            ),
        ),
    decreases rounds.len(),
{
    if rounds.len() > 0 {
        let rest = rounds.drop_last();
        law_the_wait_fails_with_the_error_it_met(index, rest, checked);
        assert(rounds.last() == rounds[rounds.len() - 1]);
        if wait_outcome(index, rest, checked) is Some {
            if wait_outcome(index, rest, checked)->0 is Err {
                let e = wait_outcome(index, rest, checked)->0->Err_0;
                if exists|i: int|
                    0 <= i < rest.len() && (#[trigger] rest[i].merges matches Err(c) && e == c@) {
                    let i = choose|i: int|
                        0 <= i < rest.len() && (#[trigger] rest[i].merges matches Err(c) && e
                            == c@);
                    assert(rounds[i] == rest[i]);
                    assert(rounds[i].merges is Err);
                } else if exists|i: int|
                    0 <= i < rest.len() && #[trigger] rest[i].awake >= TIMEOUT {
                    let i = choose|i: int|
                        0 <= i < rest.len() && #[trigger] rest[i].awake >= TIMEOUT;
                    assert(rounds[i] == rest[i]);
                    assert(rounds[i].awake >= TIMEOUT);
                }
            }
        }
    }
}

} // verus!
