use vanity_addr::criteria::{matches_criteria, SearchCriteria};
use vanity_addr::search::{run_search, SearchState};
use vanity_addr::SearchError;

fn crit(prefix: Option<&str>, suffix: Option<&str>) -> SearchCriteria {
    SearchCriteria {
        prefix: prefix.map(|s| s.to_string()),
        suffix: suffix.map(|s| s.to_string()),
    }
}

#[test]
fn search_collects_exact_target_quantity() {
    let outcome = run_search(crit(Some("00"), None), 5, 4).unwrap();
    assert_eq!(outcome.results.len(), 5);
    for kp in &outcome.results {
        assert!(kp.address().starts_with("00"));
        assert!(matches_criteria(kp.address(), &crit(Some("00"), None)));
    }
    assert!(outcome.attempts >= 5);
}

#[test]
fn unconstrained_search_spends_one_attempt_per_result() {
    let outcome = run_search(crit(None, None), 1, 1).unwrap();
    assert_eq!(outcome.results.len(), 1);
    assert_eq!(outcome.attempts, 1);
}

#[test]
fn zero_target_is_rejected() {
    let r = run_search(crit(None, None), 0, 4);
    assert!(matches!(r, Err(SearchError::InvalidTarget)));
}

#[test]
fn zero_workers_are_rejected() {
    let r = run_search(crit(None, None), 1, 0);
    assert!(matches!(r, Err(SearchError::InvalidWorkerCount)));
}

#[test]
fn state_rejects_zero_target() {
    assert!(matches!(
        SearchState::new(crit(None, None), 0),
        Err(SearchError::InvalidTarget)
    ));
}

#[test]
fn fresh_state_has_empty_snapshot() {
    let state = SearchState::new(crit(None, None), 3).unwrap();
    let snap = state.snapshot();
    assert_eq!(snap.attempts, 0);
    assert_eq!(snap.found, 0);
    assert!(!state.is_stopped());
}

#[test]
fn snapshot_reflects_one_unconstrained_step() {
    let mut state = SearchState::new(crit(None, None), 2).unwrap();
    let recorded = state.worker_step().unwrap();
    assert!(recorded);
    let snap = state.snapshot();
    assert_eq!(snap.attempts, 1);
    assert_eq!(snap.found, 1);
    assert!(!state.is_stopped());
}

#[test]
fn stop_signal_is_idempotent() {
    let mut state = SearchState::new(crit(Some("00"), None), 3).unwrap();
    state.request_stop();
    assert!(state.is_stopped());
    let first = state.snapshot();
    state.request_stop();
    assert!(state.is_stopped());
    let second = state.snapshot();
    assert_eq!(first, second);
}

#[test]
fn attempts_equal_sum_of_worker_increments() {
    let mut state = SearchState::new(crit(Some("0"), None), 2).unwrap();
    let target = 2;
    let mut local = [0u64; 8];
    let mut worker = 0;
    while !state.is_stopped() {
        state.worker_step().unwrap();
        local[worker] += 1;
        worker = (worker + 1) % 8;
        assert!(state.snapshot().found <= target);
    }
    let total: u64 = local.iter().sum();
    assert_eq!(state.snapshot().attempts, total);
    assert_eq!(state.snapshot().found, target);
}

#[test]
fn results_satisfy_criteria_after_shared_search() {
    let mut state = SearchState::new(crit(None, Some("a")), 2).unwrap();
    while !state.is_stopped() {
        state.worker_step().unwrap();
    }
    let results = state.take_results();
    assert_eq!(results.len(), 2);
    for kp in &results {
        assert!(kp.address().ends_with('a'));
    }
}
