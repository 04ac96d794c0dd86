//! The search engine: shared search state (found results, attempt counter,
//! stop flag), the worker step that derives a candidate and records it, the
//! coordinator loop, and progress snapshots. The results never outgrow the
//! target quantity, the attempt counter only increases, and the stop flag is
//! raised exactly when the target quantity has been reached or a stop was
//! requested from outside.

use vstd::prelude::*;
use crate::SearchError;
use crate::criteria::{matches_criteria, spec_matches, SearchCriteria};
use crate::keys::{generate_key_pair, KeyPair};

verus! {

/// A read-only copy of the progress counters, taken at one instant.
#[derive(Debug, Clone, Copy, PartialEq, Eq, Structural)]
pub struct ProgressSnapshot {
    /// How many candidates have been derived so far.
    pub attempts: u64,
    /// How many matching results have been collected so far.
    pub found: usize,
}

/// What a completed search returns: the collected pairs and the total
/// number of candidates that were derived.
pub struct SearchOutcome {
    pub results: Vec<KeyPair>,
    pub attempts: u64,
}

/// The shared state of a search: the criteria and target quantity fixed at
/// creation, the results collected so far, the attempt counter, and the
/// stop flag.
pub struct SearchState {
    criteria: SearchCriteria,
    target: usize,
    results: Vec<KeyPair>,
    attempts: u64,
    stopped: bool,
}

impl SearchState {
    /// The prefix constraint, as a character string.
    pub closed spec fn spec_prefix(&self) -> Option<Seq<char>> {
        self.criteria.prefix_view()
    }

    /// The suffix constraint, as a character string.
    pub closed spec fn spec_suffix(&self) -> Option<Seq<char>> {
        self.criteria.suffix_view()
    }

    /// Whether the criteria constrain nothing.
    pub closed spec fn spec_unconstrained(&self) -> bool {
        self.criteria.is_unconstrained()
    }

    /// The target quantity.
    pub closed spec fn spec_target(&self) -> usize {
        self.target
    }

    /// The results collected so far.
    pub closed spec fn spec_results(&self) -> Seq<KeyPair> {
        self.results@
    }

    /// The attempt counter.
    pub closed spec fn spec_attempts(&self) -> u64 {
        self.attempts
    }

    /// The stop flag.
    pub closed spec fn spec_stopped(&self) -> bool {
        self.stopped
    }

    /// The state with the stop flag raised and everything else unchanged.
    pub closed spec fn with_stop(self) -> SearchState {
        SearchState { stopped: true, ..self }
    }

    /// A well-formed state never holds more results than the target
    /// quantity, is stopped as soon as the target is reached, and holds
    /// only well-formed pairs that satisfy the criteria.
    pub open spec fn wf(&self) -> bool {
        &&& 1 <= self.spec_target()
        &&& self.spec_results().len() <= self.spec_target()
        &&& (self.spec_results().len() == self.spec_target() ==> self.spec_stopped())
        &&& forall|i: int|
            0 <= i < self.spec_results().len() ==> (#[trigger] self.spec_results()[i]).wf()
                && spec_matches(
                self.spec_results()[i].address_chars(),
                self.spec_prefix(),
                self.spec_suffix(),
            )
    }

    /// Fresh state for a search: no results, no attempts, not stopped.
    /// Rejects a target quantity of zero.
    pub fn new(criteria: SearchCriteria, target: usize) -> (r: Result<SearchState, SearchError>)
        ensures
            r is Ok <==> target >= 1,
            target == 0 ==> r == Err::<SearchState, SearchError>(SearchError::InvalidTarget),
            r matches Ok(s) ==> ({
                &&& s.wf()
                &&& s.spec_prefix() == criteria.prefix_view()
                &&& s.spec_suffix() == criteria.suffix_view()
                &&& s.spec_unconstrained() == criteria.is_unconstrained()
                &&& s.spec_target() == target
                &&& s.spec_results() == Seq::<KeyPair>::empty()
                &&& s.spec_attempts() == 0
                &&& !s.spec_stopped()
            }),
    {
        if target == 0 {
            return Err(SearchError::InvalidTarget);
        }
        Ok(SearchState { criteria, target, results: Vec::new(), attempts: 0, stopped: false })
    }

    /// Raises the stop flag; everything else is unchanged. Idempotent: on a
    /// stopped state this changes nothing.
    pub fn request_stop(&mut self)
        ensures
            *final(self) == (*old(self)).with_stop(),
            final(self).spec_stopped(),
            final(self).spec_results() == old(self).spec_results(),
            final(self).spec_attempts() == old(self).spec_attempts(),
            final(self).spec_target() == old(self).spec_target(),
            final(self).spec_prefix() == old(self).spec_prefix(),
            final(self).spec_suffix() == old(self).spec_suffix(),
            old(self).wf() ==> final(self).wf(),
    {
        self.stopped = true;
    }

    /// Counts one derived candidate. The counter only increases.
    pub fn record_attempt(&mut self)
        requires
            old(self).spec_attempts() < u64::MAX,
        ensures
            final(self).spec_attempts() == old(self).spec_attempts() + 1,
            final(self).spec_results() == old(self).spec_results(),
            final(self).spec_stopped() == old(self).spec_stopped(),
            final(self).spec_target() == old(self).spec_target(),
            final(self).spec_prefix() == old(self).spec_prefix(),
            final(self).spec_suffix() == old(self).spec_suffix(),
            final(self).spec_unconstrained() == old(self).spec_unconstrained(),
            old(self).wf() ==> final(self).wf(),
    {
        self.attempts = self.attempts + 1;
    }

    /// The critical section of the search: appends a matching candidate,
    /// but only while the target quantity has not been reached, and raises
    /// the stop flag the moment the appended result reaches it. The check
    /// and the append form one operation, so the results can never outgrow
    /// the target.
    pub fn submit_candidate(&mut self, kp: KeyPair)
        requires
            old(self).wf(),
            kp.wf(),
            spec_matches(kp.address_chars(), old(self).spec_prefix(), old(self).spec_suffix()),
        ensures
            final(self).wf(),
            final(self).spec_attempts() == old(self).spec_attempts(),
            final(self).spec_target() == old(self).spec_target(),
            final(self).spec_prefix() == old(self).spec_prefix(),
            final(self).spec_suffix() == old(self).spec_suffix(),
            final(self).spec_unconstrained() == old(self).spec_unconstrained(),
            old(self).spec_results().len() < old(self).spec_target() ==> ({
                &&& final(self).spec_results() == old(self).spec_results().push(kp)
                &&& final(self).spec_stopped() == (old(self).spec_stopped() || old(
                    self,
                ).spec_results().len() + 1 == old(self).spec_target())
            }),
            old(self).spec_results().len() >= old(self).spec_target() ==> ({
                &&& final(self).spec_results() == old(self).spec_results()
                &&& final(self).spec_stopped() == old(self).spec_stopped()
            }),
    {
        if self.results.len() < self.target {
            self.results.push(kp);
            if self.results.len() == self.target {
                self.stopped = true;
            }
        }
    }

    /// One worker iteration: derive a candidate, count the attempt, and
    /// submit the candidate if it matches. Returns whether a result was
    /// recorded, or the entropy fault that ended the worker; on a fault the
    /// state is unchanged. When the criteria constrain nothing and the
    /// target has not been reached, every successful step records a result.
    pub fn worker_step(&mut self) -> (r: Result<bool, SearchError>)
        requires
            old(self).wf(),
            old(self).spec_attempts() < u64::MAX,
        ensures
            final(self).wf(),
            final(self).spec_target() == old(self).spec_target(),
            final(self).spec_prefix() == old(self).spec_prefix(),
            final(self).spec_suffix() == old(self).spec_suffix(),
            final(self).spec_unconstrained() == old(self).spec_unconstrained(),
            r matches Err(e) ==> e == SearchError::EntropyFailure && *final(self) == *old(self),
            r is Ok ==> final(self).spec_attempts() == old(self).spec_attempts() + 1,
            r == Ok::<bool, SearchError>(false) ==> ({
                &&& final(self).spec_results() == old(self).spec_results()
                &&& final(self).spec_stopped() == old(self).spec_stopped()
            }),
            r == Ok::<bool, SearchError>(true) ==> ({
                &&& old(self).spec_results().len() < old(self).spec_target()
                &&& final(self).spec_results().len() == old(self).spec_results().len() + 1
                &&& final(self).spec_results().drop_last() == old(self).spec_results()
                &&& final(self).spec_results().last().wf()
                &&& spec_matches(
                    final(self).spec_results().last().address_chars(),
                    old(self).spec_prefix(),
                    old(self).spec_suffix(),
                )
                &&& final(self).spec_stopped() == (old(self).spec_stopped() || old(
                    self,
                ).spec_results().len() + 1 == old(self).spec_target())
            }),
            old(self).spec_unconstrained() && old(self).spec_results().len() < old(
                self,
            ).spec_target() && r is Ok ==> r == Ok::<bool, SearchError>(true),
    {
        let kp = match generate_key_pair() {
            Ok(kp) => kp,
            Err(e) => {
                return Err(e);
            },
        };
        self.record_attempt();
        let matched = matches_criteria(kp.address(), &self.criteria);
        if matched {
            if self.results.len() < self.target {
                let ghost prev = *self;
                self.submit_candidate(kp);
                proof {
                    assert(final(self).spec_results().drop_last() =~= prev.spec_results());
                }
                return Ok(true);
            }
        }
        Ok(false)
    }

    /// A consistent read-only copy of the progress counters.
    pub fn snapshot(&self) -> (r: ProgressSnapshot)
        ensures
            r.attempts == self.spec_attempts(),
            r.found == self.spec_results().len(),
    {
        ProgressSnapshot { attempts: self.attempts, found: self.results.len() }
    }

    /// Whether the stop flag has been raised.
    pub fn is_stopped(&self) -> (r: bool)
        ensures
            r == self.spec_stopped(),
    {
        self.stopped
    }

    /// The attempt counter.
    pub fn attempts(&self) -> (r: u64)
        ensures
            r == self.spec_attempts(),
    {
        self.attempts
    }

    /// Consumes the state and hands out the collected results.
    pub fn take_results(self) -> (r: Vec<KeyPair>)
        ensures
            r@ == self.spec_results(),
    {
        self.results
    }
}

/// Raising the stop flag twice leaves the state exactly as raising it once
/// does: the stop signal is idempotent.
pub proof fn lemma_stop_idempotent(s: SearchState)
    ensures
        s.with_stop().with_stop() == s.with_stop(),
{
}

/// Runs a search to completion on the calling thread: candidates are
/// derived and counted until the target quantity of matching pairs has been
/// collected. A parallel driver outside this library shares a `SearchState`
/// between `worker_count` workers that run the same `worker_step`; the
/// count is validated here and does not change what a search returns.
/// Returns exactly `target` well-formed matching pairs and the total
/// attempt count; when the criteria constrain nothing, exactly one attempt
/// is spent per requested pair. Rejects a target quantity of zero and a
/// worker count of zero; fails only on an entropy fault or on the
/// exhaustion of the attempt counter's range.
pub fn run_search(criteria: SearchCriteria, target: usize, worker_count: usize) -> (r: Result<
    SearchOutcome,
    SearchError,
>)
    ensures
        r == Err::<SearchOutcome, SearchError>(SearchError::InvalidTarget) <==> target == 0,
        r == Err::<SearchOutcome, SearchError>(SearchError::InvalidWorkerCount) <==> (target >= 1
            && worker_count == 0),
        target >= 1 && worker_count >= 1 ==> (r matches Err(e) ==> e == SearchError::EntropyFailure
            || e == SearchError::AttemptsExhausted),
        r is Ok ==> target >= 1 && worker_count >= 1,
        r matches Ok(o) ==> ({
            &&& o.results@.len() == target
            &&& forall|i: int|
                0 <= i < o.results@.len() ==> (#[trigger] o.results@[i]).wf() && spec_matches(
                    o.results@[i].address_chars(),
                    criteria.prefix_view(),
                    criteria.suffix_view(),
                )
            &&& o.attempts >= target
            &&& (criteria.is_unconstrained() ==> o.attempts == target)
        }),
{
    let mut state = match SearchState::new(criteria, target) {
        Ok(s) => s,
        Err(e) => {
            return Err(e);
        },
    };
    if worker_count == 0 {
        return Err(SearchError::InvalidWorkerCount);
    }
    while !state.is_stopped()
        invariant
            target >= 1,
            worker_count >= 1,
            state.wf(),
            state.spec_target() == target,
            state.spec_prefix() == criteria.prefix_view(),
            state.spec_suffix() == criteria.suffix_view(),
            state.spec_unconstrained() == criteria.is_unconstrained(),
            state.spec_attempts() >= state.spec_results().len(),
            criteria.is_unconstrained() ==> state.spec_attempts() == state.spec_results().len(),
            state.spec_stopped() ==> state.spec_results().len() == target,
        decreases u64::MAX - state.spec_attempts(),
    {
        if state.attempts() == u64::MAX {
            return Err(SearchError::AttemptsExhausted);
        }
        let step = state.worker_step();
        match step {
            Ok(recorded) => {
                proof {
                    if recorded {
                        assert(step == Ok::<bool, SearchError>(true));
                    } else {
                        assert(step == Ok::<bool, SearchError>(false));
                    }
                }
            },
            Err(e) => {
                return Err(e);
            },
        }
    }
    let attempts = state.attempts();
    let results = state.take_results();
    Ok(SearchOutcome { results, attempts })
}

} // verus!
