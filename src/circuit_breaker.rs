//! A per-key circuit breaker.
//!
//! Each key (for instance `"oauth:<workspace>:<provider>"`) names an
//! independent failure domain with its own record. A record is created the
//! first time a key is checked or fails, and starts Closed.
//!
//! The records are held in two parallel vectors (keys and records, keys
//! distinct) rather than in a `HashMap<String, _>`: vstd specifies `HashMap`,
//! but with `String` keys its lookups and inserts cannot be related to the
//! key's characters, so a map keyed that way proves nothing about which
//! record a key reaches. The vectors carry a ghost map from key text to
//! record, and every operation states its effect on that map.

use vstd::prelude::*;

use crate::clock::now_millis;

verus! {

/// The health of one failure domain.
#[derive(Debug, Clone, Copy, PartialEq, Eq, Structural)]
pub enum CircuitState {
    Closed,
    Open,
    HalfOpen,
}

/// What the breaker remembers of one key. Instants are milliseconds since
/// the Unix epoch.
#[derive(Debug, Clone, Copy, PartialEq, Eq, Structural)]
pub struct CircuitBreakerState {
    pub state: CircuitState,
    pub failure_count: u32,
    pub last_failure_time: Option<i64>,
    pub last_success_time: Option<i64>,
    pub half_open_request_count: u32,
}

/// The record of a key that has never been seen.
pub open spec fn fresh_record() -> CircuitBreakerState {
    CircuitBreakerState {
        state: CircuitState::Closed,
        failure_count: 0,
        last_failure_time: None,
        last_success_time: None,
        half_open_request_count: 0,
    }
}

/// Whether more than `timeout_seconds` have passed between `last` and `now`
/// (both in milliseconds).
pub open spec fn timed_out(last: i64, now: i64, timeout_seconds: i64) -> bool {
    now - last > timeout_seconds * 1000
}

/// One admission check: the record afterwards, and whether the attempt may go
/// ahead.
pub open spec fn attempt_step(
    s: CircuitBreakerState,
    now: i64,
    timeout_seconds: i64,
    half_open_max: u32,
) -> (CircuitBreakerState, bool) {
    match s.state {
        CircuitState::Closed => (s, true),
        CircuitState::Open => match s.last_failure_time {
            Some(last) => if timed_out(last, now, timeout_seconds) {
                (
                    CircuitBreakerState {
                        state: CircuitState::HalfOpen,
                        failure_count: 0,
                        half_open_request_count: 0,
                        ..s
                    },
                    true,
                )
            } else {
                (s, false)
            },
            None => (s, false),
        },
        CircuitState::HalfOpen => if s.half_open_request_count >= half_open_max {
            (s, false)
        } else {
            (
                CircuitBreakerState {
                    half_open_request_count: (s.half_open_request_count + 1) as u32,
                    ..s
                },
                true,
            )
        },
    }
}

/// A success: a half-open circuit closes and forgets its failures and probes;
/// a closed one only records the instant; an open one stays open with its
/// counters cleared.
pub open spec fn success_step(s: CircuitBreakerState, now: i64) -> CircuitBreakerState {
    match s.state {
        CircuitState::Closed => CircuitBreakerState { last_success_time: Some(now), ..s },
        CircuitState::HalfOpen => CircuitBreakerState {
            state: CircuitState::Closed,
            failure_count: 0,
            half_open_request_count: 0,
            last_success_time: Some(now),
            ..s
        },
        CircuitState::Open => CircuitBreakerState {
            failure_count: 0,
            half_open_request_count: 0,
            last_success_time: Some(now),
            ..s
        },
    }
}

/// The failure count after one more failure; it stops at `u32::MAX`.
pub open spec fn bumped(count: u32) -> u32 {
    if count < u32::MAX {
        (count + 1) as u32
    } else {
        count
    }
}

/// A failure: the count grows, the instant is recorded, and the circuit opens
/// once the count reaches the threshold.
pub open spec fn failure_step(s: CircuitBreakerState, now: i64, threshold: u32) -> CircuitBreakerState {
    let count = bumped(s.failure_count);
    CircuitBreakerState {
        failure_count: count,
        last_failure_time: Some(now),
        state: if count >= threshold {
            CircuitState::Open
        } else {
            s.state
        },
        ..s
    }
}

/// Failures recorded one after another at the given instants.
pub open spec fn failures(s: CircuitBreakerState, times: Seq<i64>, threshold: u32) -> CircuitBreakerState
    decreases times.len(),
{
    if times.len() == 0 {
        s
    } else {
        failure_step(failures(s, times.drop_last(), threshold), times.last(), threshold)
    }
}

/// How many of the admission checks made at the instants `nows`, one after
/// another from the record `s`, are granted.
pub open spec fn granted(s: CircuitBreakerState, nows: Seq<i64>, timeout_seconds: i64, half_open_max: u32) -> nat
    decreases nows.len(),
{
    if nows.len() == 0 {
        0
    } else {
        let (next, ok) = attempt_step(s, nows[0], timeout_seconds, half_open_max);
        (if ok {
            1nat
        } else {
            0nat
        }) + granted(next, nows.subrange(1, nows.len() as int), timeout_seconds, half_open_max)
    }
}

/// Each failure adds one to the count until it saturates.
proof fn lemma_failures_count(s: CircuitBreakerState, times: Seq<i64>, threshold: u32)
    ensures
        failures(s, times, threshold).failure_count >= if times.len() < u32::MAX {
            times.len()
        } else {
            u32::MAX as nat
        },
    decreases times.len(),
{
    if times.len() > 0 {
        lemma_failures_count(s, times.drop_last(), threshold);
    }
}

/// After `threshold` or more failures in a row, whatever the record was
/// before, the circuit is open, and a check made no later than the timeout
/// after the last failure is refused.
pub proof fn lemma_threshold_failures_open(
    s: CircuitBreakerState,
    times: Seq<i64>,
    threshold: u32,
    now: i64,
    timeout_seconds: i64,
    half_open_max: u32,
)
    requires
        threshold >= 1,
        times.len() >= threshold,
        now - times.last() <= timeout_seconds * 1000,
    ensures
        failures(s, times, threshold).state == CircuitState::Open,
        failures(s, times, threshold).failure_count >= threshold,
        !attempt_step(failures(s, times, threshold), now, timeout_seconds, half_open_max).1,
{
    lemma_failures_count(s, times, threshold);
}

/// From a half-open record, the checks that follow are granted while probes
/// remain, and refused after: of `nows.len()` checks exactly
/// `min(nows.len(), half_open_max - probes so far)` are granted.
pub proof fn lemma_half_open_bounded(
    s: CircuitBreakerState,
    nows: Seq<i64>,
    timeout_seconds: i64,
    half_open_max: u32,
)
    requires
        s.state == CircuitState::HalfOpen,
        s.half_open_request_count <= half_open_max,
    ensures
        granted(s, nows, timeout_seconds, half_open_max) == if nows.len() < half_open_max - s.half_open_request_count {
            nows.len() as int
        } else {
            half_open_max - s.half_open_request_count
        },
    decreases nows.len(),
{
    if nows.len() > 0 {
        let next = attempt_step(s, nows[0], timeout_seconds, half_open_max).0;
        lemma_half_open_bounded(next, nows.subrange(1, nows.len() as int), timeout_seconds, half_open_max);
    }
}

/// The record of `key` in a map of records, or a fresh one.
pub open spec fn record_in(m: Map<Seq<char>, CircuitBreakerState>, key: Seq<char>) -> CircuitBreakerState {
    if m.contains_key(key) {
        m[key]
    } else {
        fresh_record()
    }
}

/// The records and the answers after successive admission checks of `key`
/// at the instants `nows`, each as `CircuitBreaker::can_attempt_at` makes it.
pub open spec fn checks_on(
    m: Map<Seq<char>, CircuitBreakerState>,
    key: Seq<char>,
    nows: Seq<i64>,
    timeout_seconds: i64,
    half_open_max: u32,
) -> (Map<Seq<char>, CircuitBreakerState>, Seq<bool>)
    decreases nows.len(),
{
    if nows.len() == 0 {
        (m, Seq::empty())
    } else {
        let step = attempt_step(record_in(m, key), nows[0], timeout_seconds, half_open_max);
        let rest = checks_on(m.insert(key, step.0), key, nows.subrange(1, nows.len() as int), timeout_seconds, half_open_max);
        (rest.0, seq![step.1] + rest.1)
    }
}

/// Successive checks of a half-open key, with no success or failure between
/// them: the i-th (from 0) is granted exactly when fewer than
/// `half_open_max` probes have been counted before it, so after a switch to
/// half-open the first `half_open_max` checks are granted and all later ones
/// refused; the key stays half-open throughout.
pub proof fn lemma_half_open_checks(
    m: Map<Seq<char>, CircuitBreakerState>,
    key: Seq<char>,
    nows: Seq<i64>,
    timeout_seconds: i64,
    half_open_max: u32,
)
    requires
        record_in(m, key).state == CircuitState::HalfOpen,
        record_in(m, key).half_open_request_count <= half_open_max,
    ensures
        checks_on(m, key, nows, timeout_seconds, half_open_max).1.len() == nows.len(),
        forall|i: int|
            0 <= i < nows.len() ==> #[trigger] checks_on(m, key, nows, timeout_seconds, half_open_max).1[i] == (
            record_in(m, key).half_open_request_count + i < half_open_max),
        record_in(checks_on(m, key, nows, timeout_seconds, half_open_max).0, key).state == CircuitState::HalfOpen,
    decreases nows.len(),
{
    if nows.len() > 0 {
        let c = record_in(m, key).half_open_request_count;
        let step = attempt_step(record_in(m, key), nows[0], timeout_seconds, half_open_max);
        let m2 = m.insert(key, step.0);
        let tail = nows.subrange(1, nows.len() as int);
        assert(record_in(m2, key) == step.0);
        lemma_half_open_checks(m2, key, tail, timeout_seconds, half_open_max);
        let rest = checks_on(m2, key, tail, timeout_seconds, half_open_max);
        let all = checks_on(m, key, nows, timeout_seconds, half_open_max);
        assert(all.1 == seq![step.1] + rest.1);
        assert forall|i: int| 0 <= i < nows.len() implies #[trigger] all.1[i] == (c + i < half_open_max) by {
            if i > 0 {
                assert(all.1[i] == rest.1[i - 1]);
            }
        }
    }
}

/// Once open and more than the timeout past the last failure, a check is
/// granted and turns the circuit half-open with no probes counted; of the
/// checks that follow, at most `half_open_max` are granted.
pub proof fn lemma_open_times_out(
    s: CircuitBreakerState,
    now: i64,
    later: Seq<i64>,
    timeout_seconds: i64,
    half_open_max: u32,
)
    requires
        s.state == CircuitState::Open,
        s.last_failure_time matches Some(last) && timed_out(last, now, timeout_seconds),
    ensures
        attempt_step(s, now, timeout_seconds, half_open_max).1,
        attempt_step(s, now, timeout_seconds, half_open_max).0.state == CircuitState::HalfOpen,
        attempt_step(s, now, timeout_seconds, half_open_max).0.half_open_request_count == 0,
        attempt_step(s, now, timeout_seconds, half_open_max).0.failure_count == 0,
        granted(attempt_step(s, now, timeout_seconds, half_open_max).0, later, timeout_seconds, half_open_max)
            <= half_open_max,
{
    lemma_half_open_bounded(attempt_step(s, now, timeout_seconds, half_open_max).0, later, timeout_seconds, half_open_max);
}

/// Per-key failure isolation. The records live in two parallel vectors, one
/// key per record, keys distinct.
pub struct CircuitBreaker {
    keys: Vec<String>,
    records: Vec<CircuitBreakerState>,
    records_by_key: Ghost<Map<Seq<char>, CircuitBreakerState>>,
    failure_threshold: u32,
    timeout_seconds: i64,
    half_open_max_requests: u32,
}

impl View for CircuitBreaker {
    type V = Map<Seq<char>, CircuitBreakerState>;

    closed spec fn view(&self) -> Map<Seq<char>, CircuitBreakerState> {
        self.records_by_key@
    }
}

impl CircuitBreaker {
    /// The vectors agree with the map of records, and no key repeats.
    pub closed spec fn wf(&self) -> bool {
        &&& self.keys@.len() == self.records@.len()
        &&& forall|i: int, j: int|
            0 <= i < j < self.keys@.len() ==> #[trigger] self.keys@[i]@ != #[trigger] self.keys@[j]@
        &&& forall|i: int|
            0 <= i < self.keys@.len() ==> {
                &&& self.records_by_key@.contains_key(#[trigger] self.keys@[i]@)
                &&& self.records_by_key@[self.keys@[i]@] == self.records@[i]
            }
        &&& forall|k: Seq<char>|
            #[trigger] self.records_by_key@.contains_key(k) ==> exists|i: int|
                0 <= i < self.keys@.len() && #[trigger] self.keys@[i]@ == k
    }

    pub closed spec fn spec_failure_threshold(&self) -> u32 {
        self.failure_threshold
    }

    pub closed spec fn spec_timeout_seconds(&self) -> i64 {
        self.timeout_seconds
    }

    pub closed spec fn spec_half_open_max(&self) -> u32 {
        self.half_open_max_requests
    }

    /// The record of `key`, or a fresh one if the key was never seen.
    pub open spec fn record_of(&self, key: Seq<char>) -> CircuitBreakerState {
        record_in(self@, key)
    }

    /// A breaker that opens after `failure_threshold` failures, stays open
    /// for `timeout_seconds`, and then lets three probes through.
    pub fn new(failure_threshold: u32, timeout_seconds: i64) -> (r: Self)
        ensures
            r.wf(),
            r@ == Map::<Seq<char>, CircuitBreakerState>::empty(),
            r.spec_failure_threshold() == failure_threshold,
            r.spec_timeout_seconds() == timeout_seconds,
            r.spec_half_open_max() == 3,
    {
        CircuitBreaker {
            keys: Vec::new(),
            records: Vec::new(),
            records_by_key: Ghost(Map::empty()),
            failure_threshold,
            timeout_seconds,
            half_open_max_requests: 3,
        }
    }

    /// The position of `key` among the records, if it has one.
    fn find(&self, key: &String) -> (r: Option<usize>)
        requires
            self.wf(),
        ensures
            match r {
                Some(i) => i < self.keys@.len() && self.keys@[i as int]@ == key@,
                None => !self@.contains_key(key@),
            },
    {
        let mut i: usize = 0;
        while i < self.keys.len()
            invariant
                self.wf(),
                i <= self.keys@.len(),
                forall|j: int| 0 <= j < i ==> self.keys@[j]@ != key@,
            decreases self.keys@.len() - i,
        {
            if self.keys[i] == *key {
                return Some(i);
            }
            i += 1;
        }
        None
    }

    /// Stores `s` as the record of `key`, adding the key if it is new.
    fn put(&mut self, key: String, s: CircuitBreakerState)
        requires
            old(self).wf(),
        ensures
            final(self).wf(),
            final(self)@ == old(self)@.insert(key@, s),
            final(self).spec_failure_threshold() == old(self).spec_failure_threshold(),
            final(self).spec_timeout_seconds() == old(self).spec_timeout_seconds(),
            final(self).spec_half_open_max() == old(self).spec_half_open_max(),
    {
        match self.find(&key) {
            Some(i) => {
                self.records.set(i, s);
                self.records_by_key = Ghost(self.records_by_key@.insert(key@, s));
                assert forall|k: Seq<char>| #[trigger] self.records_by_key@.contains_key(k) implies exists|j: int|
                    0 <= j < self.keys@.len() && #[trigger] self.keys@[j]@ == k by {
                    if k != key@ {
                        assert(old(self).records_by_key@.contains_key(k));
                        let j = choose|j: int| 0 <= j < old(self).keys@.len() && #[trigger] old(self).keys@[j]@ == k;
                        assert(self.keys@[j]@ == k);
                    } else {
                        assert(self.keys@[i as int]@ == k);
                    }
                }
            },
            None => {
                let ghost k0 = key@;
                self.keys.push(key);
                self.records.push(s);
                self.records_by_key = Ghost(self.records_by_key@.insert(k0, s));
                assert forall|k: Seq<char>| #[trigger] self.records_by_key@.contains_key(k) implies exists|j: int|
                    0 <= j < self.keys@.len() && #[trigger] self.keys@[j]@ == k by {
                    if k != k0 {
                        assert(old(self).records_by_key@.contains_key(k));
                        let j = choose|j: int| 0 <= j < old(self).keys@.len() && #[trigger] old(self).keys@[j]@ == k;
                        assert(self.keys@[j]@ == k);
                    } else {
                        assert(self.keys@[self.keys@.len() - 1]@ == k);
                    }
                }
            },
        }
    }

    /// The record of `key` as stored, or a fresh one.
    fn current(&self, key: &String) -> (r: CircuitBreakerState)
        requires
            self.wf(),
        ensures
            r == self.record_of(key@),
    {
        match self.find(key) {
            Some(i) => self.records[i],
            None => CircuitBreakerState {
                state: CircuitState::Closed,
                failure_count: 0,
                last_failure_time: None,
                last_success_time: None,
                half_open_request_count: 0,
            },
        }
    }

    /// Whether an attempt on `key` may go ahead at the instant `now`
    /// (milliseconds). A closed circuit always admits. An open one admits once
    /// more than the timeout has passed since its last failure, turning
    /// half-open with its counters cleared. A half-open one admits a bounded
    /// number of probes, counting each.
    pub fn can_attempt_at(&mut self, key: &str, now: i64) -> (r: bool)
        requires
            old(self).wf(),
        ensures
            final(self).wf(),
            final(self)@ == old(self)@.insert(
                key@,
                attempt_step(
                    old(self).record_of(key@),
                    now,
                    old(self).spec_timeout_seconds(),
                    old(self).spec_half_open_max(),
                ).0,
            ),
            r == attempt_step(
                old(self).record_of(key@),
                now,
                old(self).spec_timeout_seconds(),
                old(self).spec_half_open_max(),
            ).1,
            old(self).record_of(key@).state == CircuitState::Closed ==> r,
            final(self).spec_failure_threshold() == old(self).spec_failure_threshold(),
            final(self).spec_timeout_seconds() == old(self).spec_timeout_seconds(),
            final(self).spec_half_open_max() == old(self).spec_half_open_max(),
    {
        let k = key.to_string();
        let s = self.current(&k);
        let (next, ok) = match s.state {
            CircuitState::Closed => (s, true),
            CircuitState::Open => match s.last_failure_time {
                Some(last) => {
                    let elapsed: i128 = now as i128 - last as i128;
                    if elapsed > self.timeout_seconds as i128 * 1000 {
                        (
                            CircuitBreakerState {
                                state: CircuitState::HalfOpen,
                                failure_count: 0,
                                half_open_request_count: 0,
                                ..s
                            },
                            true,
                        )
                    } else {
                        (s, false)
                    }
                },
                None => (s, false),
            },
            CircuitState::HalfOpen => {
                if s.half_open_request_count >= self.half_open_max_requests {
                    (s, false)
                } else {
                    (
                        CircuitBreakerState {
                            half_open_request_count: s.half_open_request_count + 1,
                            ..s
                        },
                        true,
                    )
                }
            },
        };
        self.put(k, next);
        ok
    }

    /// [`CircuitBreaker::can_attempt_at`] at the current instant.
    pub fn can_attempt(&mut self, key: &str) -> (r: bool)
        requires
            old(self).wf(),
        ensures
            final(self).wf(),
            exists|now: i64|
                {
                    let step = #[trigger] attempt_step(
                        old(self).record_of(key@),
                        now,
                        old(self).spec_timeout_seconds(),
                        old(self).spec_half_open_max(),
                    );
                    &&& final(self)@ == old(self)@.insert(key@, step.0)
                    &&& r == step.1
                },
            old(self).record_of(key@).state == CircuitState::Closed ==> r,
            final(self).spec_failure_threshold() == old(self).spec_failure_threshold(),
            final(self).spec_timeout_seconds() == old(self).spec_timeout_seconds(),
            final(self).spec_half_open_max() == old(self).spec_half_open_max(),
    {
        let now = now_millis();
        self.can_attempt_at(key, now)
    }

    /// Records a success on `key` at the instant `now`. A key that was never
    /// seen is left alone.
    pub fn record_success_at(&mut self, key: &str, now: i64)
        requires
            old(self).wf(),
        ensures
            final(self).wf(),
            old(self)@.contains_key(key@) ==> final(self)@ == old(self)@.insert(
                key@,
                success_step(old(self)@[key@], now),
            ),
            !old(self)@.contains_key(key@) ==> final(self)@ == old(self)@,
            old(self).record_of(key@).state == CircuitState::HalfOpen ==> {
                &&& final(self).record_of(key@).state == CircuitState::Closed
                &&& final(self).record_of(key@).failure_count == 0
            },
            final(self).spec_failure_threshold() == old(self).spec_failure_threshold(),
            final(self).spec_timeout_seconds() == old(self).spec_timeout_seconds(),
            final(self).spec_half_open_max() == old(self).spec_half_open_max(),
    {
        let k = key.to_string();
        match self.find(&k) {
            Some(i) => {
                let s = self.records[i];
                let next = match s.state {
                    CircuitState::Closed => CircuitBreakerState { last_success_time: Some(now), ..s },
                    CircuitState::HalfOpen => CircuitBreakerState {
                        state: CircuitState::Closed,
                        failure_count: 0,
                        half_open_request_count: 0,
                        last_success_time: Some(now),
                        ..s
                    },
                    CircuitState::Open => CircuitBreakerState {
                        failure_count: 0,
                        half_open_request_count: 0,
                        last_success_time: Some(now),
                        ..s
                    },
                };
                self.put(k, next);
            },
            None => {},
        }
    }

    /// [`CircuitBreaker::record_success_at`] at the current instant.
    pub fn record_success(&mut self, key: &str)
        requires
            old(self).wf(),
        ensures
            final(self).wf(),
            exists|now: i64|
                {
                    &&& old(self)@.contains_key(key@) ==> final(self)@ == old(self)@.insert(
                        key@,
                        #[trigger] success_step(old(self)@[key@], now),
                    )
                    &&& !old(self)@.contains_key(key@) ==> final(self)@ == old(self)@
                },
            old(self).record_of(key@).state == CircuitState::HalfOpen ==> {
                &&& final(self).record_of(key@).state == CircuitState::Closed
                &&& final(self).record_of(key@).failure_count == 0
            },
            final(self).spec_failure_threshold() == old(self).spec_failure_threshold(),
            final(self).spec_timeout_seconds() == old(self).spec_timeout_seconds(),
            final(self).spec_half_open_max() == old(self).spec_half_open_max(),
    {
        let now = now_millis();
        self.record_success_at(key, now);
    }

    /// Records a failure on `key` at the instant `now`, creating its record if
    /// needed; the circuit opens once the count reaches the threshold.
    pub fn record_failure_at(&mut self, key: &str, now: i64)
        requires
            old(self).wf(),
        ensures
            final(self).wf(),
            final(self)@ == old(self)@.insert(
                key@,
                failure_step(old(self).record_of(key@), now, old(self).spec_failure_threshold()),
            ),
            final(self).spec_failure_threshold() == old(self).spec_failure_threshold(),
            final(self).spec_timeout_seconds() == old(self).spec_timeout_seconds(),
            final(self).spec_half_open_max() == old(self).spec_half_open_max(),
    {
        let k = key.to_string();
        let s = self.current(&k);
        let count = if s.failure_count < u32::MAX {
            s.failure_count + 1
        } else {
            s.failure_count
        };
        let state = if count >= self.failure_threshold {
            CircuitState::Open
        } else {
            s.state
        };
        let next = CircuitBreakerState { failure_count: count, last_failure_time: Some(now), state, ..s };
        self.put(k, next);
    }

    /// [`CircuitBreaker::record_failure_at`] at the current instant.
    pub fn record_failure(&mut self, key: &str)
        requires
            old(self).wf(),
        ensures
            final(self).wf(),
            exists|now: i64|
                final(self)@ == old(self)@.insert(
                    key@,
                    #[trigger] failure_step(old(self).record_of(key@), now, old(self).spec_failure_threshold()),
                ),
            final(self).spec_failure_threshold() == old(self).spec_failure_threshold(),
            final(self).spec_timeout_seconds() == old(self).spec_timeout_seconds(),
            final(self).spec_half_open_max() == old(self).spec_half_open_max(),
    {
        let now = now_millis();
        self.record_failure_at(key, now);
    }

    /// The state of `key`; Closed for a key never seen.
    pub fn get_state(&self, key: &str) -> (r: CircuitState)
        requires
            self.wf(),
        ensures
            r == self.record_of(key@).state,
    {
        let k = key.to_string();
        self.current(&k).state
    }
}

impl Default for CircuitBreaker {
    /// Five failures open the circuit for sixty seconds.
    fn default() -> (r: Self)
        ensures
            r.wf(),
            r@ == Map::<Seq<char>, CircuitBreakerState>::empty(),
            r.spec_failure_threshold() == 5,
            r.spec_timeout_seconds() == 60,
            r.spec_half_open_max() == 3,
    {
        Self::new(5, 60)
    }
}

} // verus!
