use crate::epoch::EPOCH;
use crate::error::{HlcError, HlcResult};
use crate::source::{ManualTimestamp, TimestampSource, UtcTimestamp};
use crate::timestamp::{
    field_error, fields_in_range, lemma_order_is_lexicographic,
    lemma_raw_is_packed_fields, HlcAtomicTimestamp, HlcTimestamp, LC_MAX, PT_MAX,
};
use vstd::prelude::*;

verus! {

/// The local-tick merge: the new physical time is the larger of the stored
/// physical time and the wall-clock reading; the logical counter increments
/// when the physical time stays pinned and resets to zero when it advances.
pub open spec fn spec_tick(local_pt: int, local_lc: int, now: int) -> (int, int) {
    if now > local_pt {
        (now, 0)
    } else {
        (local_pt, local_lc + 1)
    }
}

/// The receive merge: the new physical time is the largest of the stored
/// physical time, the remote physical time and the wall-clock reading; the
/// logical counter succeeds the counter(s) of whichever inputs share that
/// physical time, and resets to zero when the wall clock alone sets it.
pub open spec fn spec_merge(
    local_pt: int,
    local_lc: int,
    remote_pt: int,
    remote_lc: int,
    now: int,
) -> (int, int) {
    let a = if local_pt >= remote_pt {
        local_pt
    } else {
        remote_pt
    };
    let new_pt = if a >= now {
        a
    } else {
        now
    };
    if new_pt == local_pt && new_pt == remote_pt {
        let m = if local_lc >= remote_lc {
            local_lc
        } else {
            remote_lc
        };
        (new_pt, m + 1)
    } else if new_pt == local_pt {
        (new_pt, local_lc + 1)
    } else if new_pt == remote_pt {
        (new_pt, remote_lc + 1)
    } else {
        (new_pt, 0)
    }
}

/// Whether a remote physical time lies implausibly far ahead of the local
/// wall clock: more than `max_drift` milliseconds, with a zero bound
/// disabling the check entirely.
pub open spec fn spec_drift_rejected(remote_pt: int, now: int, max_drift: int) -> bool {
    max_drift != 0 && remote_pt - now > max_drift
}

/// Computes one local tick from the stored pair and a wall-clock reading.
pub fn tick_pair(local_pt: i64, local_lc: u64, now: i64) -> (r: (i64, u64))
    requires
        fields_in_range(local_pt, local_lc),
    ensures
        (r.0 as int, r.1 as int) == spec_tick(local_pt as int, local_lc as int, now as int),
{
    if now > local_pt {
        (now, 0)
    } else {
        (local_pt, local_lc + 1)
    }
}

/// Computes one receive merge from the stored pair, the decoded remote pair
/// and a wall-clock reading.
pub fn merge_pair(local_pt: i64, local_lc: u64, remote_pt: i64, remote_lc: u64, now: i64) -> (r: (
    i64,
    u64,
))
    requires
        fields_in_range(local_pt, local_lc),
        fields_in_range(remote_pt, remote_lc),
    ensures
        (r.0 as int, r.1 as int) == spec_merge(
            local_pt as int,
            local_lc as int,
            remote_pt as int,
            remote_lc as int,
            now as int,
        ),
{
    let a = if local_pt >= remote_pt {
        local_pt
    } else {
        remote_pt
    };
    let new_pt = if a >= now {
        a
    } else {
        now
    };
    if new_pt == local_pt && new_pt == remote_pt {
        let m = if local_lc >= remote_lc {
            local_lc
        } else {
            remote_lc
        };
        (new_pt, m + 1)
    } else if new_pt == local_pt {
        (new_pt, local_lc + 1)
    } else if new_pt == remote_pt {
        (new_pt, remote_lc + 1)
    } else {
        (new_pt, 0)
    }
}

/// The drift a rejection reports: the millisecond gap itself, saturated at
/// the largest `usize` where the gap cannot be represented.
pub open spec fn spec_observed_drift(drift: int) -> int {
    if drift >= usize::MAX {
        usize::MAX as int
    } else {
        drift
    }
}

/// Checks a remote physical time against the drift bound, given the
/// wall-clock reading sampled for this call; on rejection reports the
/// observed drift and the allowed bound.
pub fn check_drift(remote_pt: i64, now: i64, max_drift: usize) -> (r: HlcResult<()>)
    requires
        EPOCH <= remote_pt <= EPOCH + PT_MAX,
    ensures
        spec_drift_rejected(remote_pt as int, now as int, max_drift as int) ==> r == Err::<
            (),
            HlcError,
        >(
            HlcError::DriftTooLarge(
                spec_observed_drift(remote_pt - now) as usize,
                max_drift,
            ),
        ),
        !spec_drift_rejected(remote_pt as int, now as int, max_drift as int) ==> r == Ok::<
            (),
            HlcError,
        >(()),
{
    if max_drift != 0 {
        let drift: i128 = remote_pt as i128 - now as i128;
        if drift > max_drift as i128 {
            let observed: usize = if drift >= usize::MAX as i128 {
                usize::MAX
            } else {
                drift as usize
            };
            return Err(HlcError::DriftTooLarge(observed, max_drift));
        }
    }
    Ok(())
}

/// Holds when timestamp `t` packs the local-tick merge of the stored pair
/// `(pt0, lc0)` with the wall-clock reading `now`, both fields within
/// bounds.
pub open spec fn is_tick_of(t: HlcTimestamp, pt0: i64, lc0: u64, now: i64) -> bool {
    let (npt, nlc) = spec_tick(pt0 as int, lc0 as int, now as int);
    EPOCH <= npt <= EPOCH + PT_MAX && nlc <= LC_MAX && t.spec_offset() == npt - EPOCH && t.spec_count()
        == nlc
}

/// Holds when `e` reports a field bound that a local tick of the stored pair
/// `(pt0, lc0)` with the wall-clock reading `now` would violate.
pub open spec fn is_tick_overflow(e: HlcError, pt0: i64, lc0: u64, now: i64) -> bool {
    let (npt, nlc) = spec_tick(pt0 as int, lc0 as int, now as int);
    !(EPOCH <= npt <= EPOCH + PT_MAX && nlc <= LC_MAX) && e == field_error(npt as i64, nlc as u64)
}

/// Holds when timestamp `t` packs the receive merge of the stored pair
/// `(pt0, lc0)`, the remote pair `(rpt, rlc)` and the wall-clock reading
/// `now`, both fields within bounds.
pub open spec fn is_merge_of(
    t: HlcTimestamp,
    pt0: i64,
    lc0: u64,
    rpt: i64,
    rlc: u64,
    now: i64,
) -> bool {
    let (npt, nlc) = spec_merge(pt0 as int, lc0 as int, rpt as int, rlc as int, now as int);
    EPOCH <= npt <= EPOCH + PT_MAX && nlc <= LC_MAX && t.spec_offset() == npt - EPOCH && t.spec_count()
        == nlc
}

/// Holds when `e` reports a field bound that a receive merge of the stored
/// pair `(pt0, lc0)` with the remote pair `(rpt, rlc)` and the wall-clock
/// reading `now` would violate.
pub open spec fn is_merge_overflow(
    e: HlcError,
    pt0: i64,
    lc0: u64,
    rpt: i64,
    rlc: u64,
    now: i64,
) -> bool {
    let (npt, nlc) = spec_merge(pt0 as int, lc0 as int, rpt as int, rlc as int, now as int);
    !(EPOCH <= npt <= EPOCH + PT_MAX && nlc <= LC_MAX) && e == field_error(npt as i64, nlc as u64)
}

/// Generator of HLC timestamps.
///
/// Owns the atomic state register, a clock source and a drift bound
/// (0 = disabled), and derives new timestamps from local ticks
/// (`next_timestamp`) and received remote timestamps (`update`).
pub struct HlcGenerator<S: TimestampSource> {
    timestamp: HlcAtomicTimestamp,
    source: S,
    max_drift: usize,
}

impl<S: TimestampSource> HlcGenerator<S> {
    /// The configured drift bound, as seen by specifications.
    pub closed spec fn spec_max_drift(self) -> usize {
        self.max_drift
    }

    /// Creates a generator over the given clock source with the given drift
    /// bound, starting from the zero state (custom epoch, counter zero).
    pub fn new(source: S, max_drift: usize) -> (r: Self)
        ensures
            r.spec_max_drift() == max_drift,
    {
        HlcGenerator {
            timestamp: HlcAtomicTimestamp::from(HlcTimestamp::default()),
            source,
            max_drift,
        }
    }

    /// Creates a new HLC timestamp snapshot of the generator's current
    /// state. A concurrent caller may replace the state at any moment, so
    /// nothing more is promised of the value than of any stored word.
    pub fn timestamp(&self) -> HlcTimestamp {
        self.timestamp.snapshot()
    }

    /// Produces the next timestamp for a local event: one local-tick merge of
    /// the stored state with a fresh wall-clock reading, applied atomically.
    ///
    /// Fails only on field overflow (practically unreachable) or when the
    /// retry protocol gives up under contention.
    pub fn next_timestamp(&self) -> (r: HlcResult<HlcTimestamp>)
        ensures
            r matches Ok(t) ==> exists|pt0: i64, lc0: u64, now: i64|
                fields_in_range(pt0, lc0) && #[trigger] is_tick_of(t, pt0, lc0, now),
            r matches Err(e) ==> (exists|pt0: i64, lc0: u64, now: i64|
                fields_in_range(pt0, lc0) && #[trigger] is_tick_overflow(e, pt0, lc0, now)) || e
                == HlcError::RetryLimitExceeded,
    {
        let now = self.source.current_timestamp();
        let merge_fn = move |pt: i64, lc: u64| -> (res: HlcResult<(i64, u64)>)
            requires
                fields_in_range(pt, lc),
            ensures
                (res matches Ok(v) && (v.0 as int, v.1 as int) == spec_tick(
                    pt as int,
                    lc as int,
                    now as int,
                )),
            { Ok(tick_pair(pt, lc, now)) };
        let r = self.timestamp.update(merge_fn);
        proof {
            match r {
                Ok(t) => {
                    let (pt0, lc0, pt1, lc1) = choose|pt0: i64, lc0: u64, pt1: i64, lc1: u64|
                        fields_in_range(pt0, lc0) && #[trigger] call_ensures(
                            merge_fn,
                            (pt0, lc0),
                            Ok((pt1, lc1)),
                        ) && fields_in_range(pt1, lc1) && t.spec_offset() == pt1
                            - EPOCH && t.spec_count() == lc1;
                    assert(is_tick_of(t, pt0, lc0, now));
                },
                Err(e) => {
                    if e != HlcError::RetryLimitExceeded {
                        let (pt0, lc0) = choose|pt0: i64, lc0: u64|
                            #![trigger call_ensures(merge_fn, (pt0, lc0), Err(e))]
                            #![trigger fields_in_range(pt0, lc0)]
                            fields_in_range(pt0, lc0) && (call_ensures(
                                merge_fn,
                                (pt0, lc0),
                                Err(e),
                            ) || exists|pt1: i64, lc1: u64|
                                #[trigger] call_ensures(merge_fn, (pt0, lc0), Ok((pt1, lc1)))
                                    && !fields_in_range(pt1, lc1) && e
                                    == field_error(pt1, lc1));
                        assert(is_tick_overflow(e, pt0, lc0, now));
                    }
                },
            }
        }
        r
    }

    /// Merges a timestamp received from a remote node into the local state:
    /// decodes it, rejects it with zero mutation when it drifts too far
    /// ahead of a fresh wall-clock reading, and otherwise applies one
    /// three-way receive merge atomically.
    pub fn update(&self, remote: &HlcTimestamp) -> (r: HlcResult<HlcTimestamp>)
        ensures
            r matches Ok(t) ==> exists|pt0: i64, lc0: u64, now: i64|
                fields_in_range(pt0, lc0) && !spec_drift_rejected(
                    remote.spec_timestamp(),
                    now as int,
                    self.spec_max_drift() as int,
                ) && #[trigger] is_merge_of(
                    t,
                    pt0,
                    lc0,
                    (remote.spec_offset() + EPOCH) as i64,
                    remote.spec_count(),
                    now,
                ),
            r matches Err(e) ==> (exists|now: i64|
                #[trigger] spec_drift_rejected(
                    remote.spec_timestamp(),
                    now as int,
                    self.spec_max_drift() as int,
                ) && e == HlcError::DriftTooLarge(
                    spec_observed_drift(remote.spec_timestamp() - now) as usize,
                    self.spec_max_drift(),
                )) || (exists|pt0: i64, lc0: u64, now: i64|
                fields_in_range(pt0, lc0) && #[trigger] is_merge_overflow(
                    e,
                    pt0,
                    lc0,
                    (remote.spec_offset() + EPOCH) as i64,
                    remote.spec_count(),
                    now,
                )) || e == HlcError::RetryLimitExceeded,
    {
        let now = self.source.current_timestamp();
        let parts = remote.parts();
        let remote_pt = parts.0;
        let remote_lc = parts.1;
        match check_drift(remote_pt, now, self.max_drift) {
            Ok(_) => (),
            Err(e) => {
                proof {
                    assert(spec_drift_rejected(
                        remote.spec_timestamp(),
                        now as int,
                        self.spec_max_drift() as int,
                    ));
                }
                return Err(e);
            },
        }
        let merge_fn = move |pt: i64, lc: u64| -> (res: HlcResult<(i64, u64)>)
            requires
                fields_in_range(pt, lc),
            ensures
                (res matches Ok(v) && (v.0 as int, v.1 as int) == spec_merge(
                    pt as int,
                    lc as int,
                    remote_pt as int,
                    remote_lc as int,
                    now as int,
                )),
            { Ok(merge_pair(pt, lc, remote_pt, remote_lc, now)) };
        let r = self.timestamp.update(merge_fn);
        proof {
            match r {
                Ok(t) => {
                    let (pt0, lc0, pt1, lc1) = choose|pt0: i64, lc0: u64, pt1: i64, lc1: u64|
                        fields_in_range(pt0, lc0) && #[trigger] call_ensures(
                            merge_fn,
                            (pt0, lc0),
                            Ok((pt1, lc1)),
                        ) && fields_in_range(pt1, lc1) && t.spec_offset() == pt1
                            - EPOCH && t.spec_count() == lc1;
                    assert(is_merge_of(
                        t,
                        pt0,
                        lc0,
                        (remote.spec_offset() + EPOCH) as i64,
                        remote.spec_count(),
                        now,
                    ));
                },
                Err(e) => {
                    if e != HlcError::RetryLimitExceeded {
                        let (pt0, lc0) = choose|pt0: i64, lc0: u64|
                            #![trigger call_ensures(merge_fn, (pt0, lc0), Err(e))]
                            #![trigger fields_in_range(pt0, lc0)]
                            fields_in_range(pt0, lc0) && (call_ensures(
                                merge_fn,
                                (pt0, lc0),
                                Err(e),
                            ) || exists|pt1: i64, lc1: u64|
                                #[trigger] call_ensures(merge_fn, (pt0, lc0), Ok((pt1, lc1)))
                                    && !fields_in_range(pt1, lc1) && e
                                    == field_error(pt1, lc1));
                        assert(is_merge_overflow(
                            e,
                            pt0,
                            lc0,
                            (remote.spec_offset() + EPOCH) as i64,
                            remote.spec_count(),
                            now,
                        ));
                    }
                },
            }
        }
        r
    }
}

impl Default for HlcGenerator<UtcTimestamp> {
    /// A generator over the live UTC wall clock with the drift check
    /// disabled.
    fn default() -> (r: Self)
        ensures
            r.spec_max_drift() == 0,
    {
        HlcGenerator::new(UtcTimestamp, 0)
    }
}

impl HlcGenerator<ManualTimestamp> {
    /// Creates a generator over a manually driven clock, starting at the
    /// custom epoch, with the given drift bound.
    pub fn manual(max_drift: usize) -> (r: Self)
        ensures
            r.spec_max_drift() == max_drift,
    {
        HlcGenerator::new(ManualTimestamp::new(EPOCH), max_drift)
    }

    /// Sets the reading of the manual clock source.
    pub fn set_current_timestamp(&self, timestamp: i64) {
        self.source.set_current_timestamp(timestamp);
    }
}

/// A local tick strictly advances the clock: whatever the wall clock reads,
/// the merged pair lexicographically exceeds the stored pair.
pub proof fn lemma_tick_advances(local_pt: int, local_lc: int, now: int)
    ensures
        ({
            let (npt, nlc) = spec_tick(local_pt, local_lc, now);
            npt > local_pt || (npt == local_pt && nlc > local_lc)
        }),
{
}

/// A local tick tracks the wall clock: if the clock strictly advanced past
/// the stored physical time, the counter resets to zero; otherwise the
/// physical time stays pinned and the counter strictly increments.
pub proof fn lemma_tick_local(local_pt: int, local_lc: int, now: int)
    ensures
        now > local_pt ==> spec_tick(local_pt, local_lc, now) == (now, 0int),
        now <= local_pt ==> spec_tick(local_pt, local_lc, now) == (local_pt, local_lc + 1),
{
}

/// The receive merge causally succeeds both of its timestamp inputs: the
/// merged pair lexicographically exceeds the stored pair and the remote
/// pair.
pub proof fn lemma_merge_advances(
    local_pt: int,
    local_lc: int,
    remote_pt: int,
    remote_lc: int,
    now: int,
)
    ensures
        ({
            let (npt, nlc) = spec_merge(local_pt, local_lc, remote_pt, remote_lc, now);
            (npt > local_pt || (npt == local_pt && nlc > local_lc)) && (npt > remote_pt || (npt
                == remote_pt && nlc > remote_lc))
        }),
{
}

/// Monotonicity of a local tick at the level of raw words: a successful
/// `next_timestamp` outcome packs a strictly larger raw word than the state
/// it replaced, so the register never repeats or goes back across
/// transitions.
pub proof fn lemma_tick_monotonic(prev: HlcTimestamp, next: HlcTimestamp, now: i64)
    requires
        is_tick_of(next, (prev.spec_offset() + EPOCH) as i64, prev.spec_count(), now),
    ensures
        next.spec_raw() > prev.spec_raw(),
{
    lemma_raw_is_packed_fields(prev);
    lemma_raw_is_packed_fields(next);
    lemma_order_is_lexicographic(prev, next);
    lemma_tick_advances(
        (prev.spec_offset() + EPOCH) as i64 as int,
        prev.spec_count() as int,
        now as int,
    );
}

/// Holds when `next` can follow `prev` as the register's state: some
/// wall-clock reading ticks `prev` into `next`, or some remote timestamp and
/// wall-clock reading merge `prev` into `next`.
pub open spec fn succeeds_state(prev: HlcTimestamp, next: HlcTimestamp) -> bool {
    (exists|now: i64|
        #[trigger] is_tick_of(next, (prev.spec_offset() + EPOCH) as i64, prev.spec_count(), now))
        || (exists|remote: HlcTimestamp, now: i64|
        #[trigger] is_merge_of(
            next,
            (prev.spec_offset() + EPOCH) as i64,
            prev.spec_count(),
            (remote.spec_offset() + EPOCH) as i64,
            remote.spec_count(),
            now,
        ))
}

/// Monotonicity of the generator: along any chain of register states in
/// which each state arises from its predecessor by a local tick or a receive
/// merge — under any interleaving and any wall-clock readings — the raw
/// words strictly increase, so the outputs are duplicate-free and sort into
/// the order they were produced.
pub proof fn lemma_chain_monotonic(states: Seq<HlcTimestamp>, i: int, j: int)
    requires
        forall|k: int|
            0 <= k < states.len() - 1 ==> #[trigger] succeeds_state(states[k], states[k + 1]),
        0 <= i < j < states.len(),
    ensures
        states[i].spec_raw() < states[j].spec_raw(),
    decreases j - i,
{
    if j == i + 1 {
        let prev = states[i];
        let next = states[j];
        assert(succeeds_state(prev, next));
        if exists|now: i64|
            #[trigger] is_tick_of(
                next,
                (prev.spec_offset() + EPOCH) as i64,
                prev.spec_count(),
                now,
            ) {
            let now = choose|now: i64|
                #[trigger] is_tick_of(
                    next,
                    (prev.spec_offset() + EPOCH) as i64,
                    prev.spec_count(),
                    now,
                );
            lemma_tick_monotonic(prev, next, now);
        } else {
            let (remote, now) = choose|remote: HlcTimestamp, now: i64|
                #[trigger] is_merge_of(
                    next,
                    (prev.spec_offset() + EPOCH) as i64,
                    prev.spec_count(),
                    (remote.spec_offset() + EPOCH) as i64,
                    remote.spec_count(),
                    now,
                );
            lemma_merge_monotonic(prev, remote, next, now);
        }
    } else {
        lemma_chain_monotonic(states, i, j - 1);
        lemma_chain_monotonic(states, j - 1, j);
    }
}

/// Monotonicity of a receive merge at the level of raw words: a successful
/// `update` outcome packs a strictly larger raw word than both the state it
/// replaced and the remote timestamp it merged, so the result causally
/// succeeds both.
pub proof fn lemma_merge_monotonic(
    prev: HlcTimestamp,
    remote: HlcTimestamp,
    next: HlcTimestamp,
    now: i64,
)
    requires
        is_merge_of(
            next,
            (prev.spec_offset() + EPOCH) as i64,
            prev.spec_count(),
            (remote.spec_offset() + EPOCH) as i64,
            remote.spec_count(),
            now,
        ),
    ensures
        next.spec_raw() > prev.spec_raw(),
        next.spec_raw() > remote.spec_raw(),
{
    lemma_raw_is_packed_fields(prev);
    lemma_raw_is_packed_fields(remote);
    lemma_raw_is_packed_fields(next);
    lemma_order_is_lexicographic(prev, next);
    lemma_order_is_lexicographic(remote, next);
    lemma_merge_advances(
        (prev.spec_offset() + EPOCH) as i64 as int,
        prev.spec_count() as int,
        (remote.spec_offset() + EPOCH) as i64 as int,
        remote.spec_count() as int,
        now as int,
    );
}

} // verus!
