use lang_tour::report::run_demos;
use lang_tour::traversal::iterator;
use lang_tour::traversal::make_zero_sequence;
use lang_tour::traversal::timed_trial_by_index;
use lang_tour::traversal::timed_trial_by_value;
use lang_tour::traversal::timed_trial_with_closure;
use lang_tour::traversal::traverse_by_index;
use lang_tour::traversal::traverse_by_value;
use lang_tour::traversal::traverse_with_closure;
use lang_tour::traversal::SEQUENCE_LEN;

#[test]
fn zero_sequence_has_full_length_of_zeroes() {
    let v = make_zero_sequence(SEQUENCE_LEN);
    assert_eq!(v.len(), 10_000_000);
    assert!(v.iter().all(|&x| x == 0));
}

#[test]
fn zero_sequence_small_lengths() {
    assert_eq!(make_zero_sequence(0), Vec::<i64>::new());
    assert_eq!(make_zero_sequence(3), vec![0, 0, 0]);
}

#[test]
fn traversals_count_matching_elements() {
    let v: Vec<i64> = vec![1, -2, 0, -7, 5];
    assert_eq!(traverse_by_index(&v), 2);
    assert_eq!(traverse_by_value(v.clone()), 2);
    assert_eq!(traverse_with_closure(v), 2);
}

#[test]
fn traversals_of_all_negative() {
    let v: Vec<i64> = vec![-1, -1, -1];
    assert_eq!(traverse_by_index(&v), 3);
    assert_eq!(traverse_by_value(v.clone()), 3);
    assert_eq!(traverse_with_closure(v), 3);
}

#[test]
fn traversals_of_empty() {
    let v: Vec<i64> = Vec::new();
    assert_eq!(traverse_by_index(&v), 0);
    assert_eq!(traverse_by_value(v.clone()), 0);
    assert_eq!(traverse_with_closure(v), 0);
}

#[test]
fn zero_trial_never_triggers_predicate() {
    let v = make_zero_sequence(SEQUENCE_LEN);
    assert_eq!(traverse_by_index(&v), 0);
}

#[test]
fn trial_by_index_reports_zero_matches() {
    let (matches, nanos) = timed_trial_by_index();
    assert_eq!(matches, 0);
    let seconds = nanos as f64 / 1e9;
    assert!(seconds.is_finite() && seconds >= 0.0);
}

#[test]
fn trial_by_value_reports_zero_matches() {
    let (matches, nanos) = timed_trial_by_value();
    assert_eq!(matches, 0);
    let seconds = nanos as f64 / 1e9;
    assert!(seconds.is_finite() && seconds >= 0.0);
}

#[test]
fn trial_with_closure_reports_zero_matches() {
    let (matches, nanos) = timed_trial_with_closure();
    assert_eq!(matches, 0);
    let seconds = nanos as f64 / 1e9;
    assert!(seconds.is_finite() && seconds >= 0.0);
}

#[test]
fn all_three_trials_report_zero_matches() {
    let trials = iterator();
    assert_eq!(trials.len(), 3);
    for (matches, nanos) in trials {
        assert_eq!(matches, 0);
        let seconds = nanos as f64 / 1e9;
        assert!(seconds.is_finite() && seconds >= 0.0);
    }
}

#[test]
fn demonstration_report_values() {
    let r = run_demos();
    assert_eq!(r.concat, "555a");
    assert_eq!(r.shadow_sum, 8);
    assert_eq!(r.divisions, (None, None, None));
    assert_eq!(r.grown, vec![1, 2, 3, 0, 5, 0, 0, 0, 0, 0, 3]);
    let queued: Vec<i64> = r.queued.into_iter().collect();
    assert_eq!(queued, vec![5, 1, 1, 1]);
    assert_eq!(r.numbers.0, (0, 1, 2, 3, 4));
    assert_eq!(r.numbers.1, (255, 2396745, 11111111, 286331153, 65));
    assert_eq!(r.listed.1, 0);
    assert_eq!(r.halves, (32, 32));
    assert_eq!(r.labels.0, "example");
    assert_eq!(r.labels.1, "");
}

#[test]
fn demonstration_twice_identical_report() {
    let a = run_demos();
    let b = run_demos();
    assert_eq!(a.concat, b.concat);
    assert_eq!(a.shadow_sum, b.shadow_sum);
    assert_eq!(a.divisions, b.divisions);
    assert_eq!(a.grown, b.grown);
    assert_eq!(
        a.queued.into_iter().collect::<Vec<i64>>(),
        b.queued.into_iter().collect::<Vec<i64>>()
    );
    assert_eq!(a.texts, b.texts);
    assert_eq!(a.numbers, b.numbers);
    assert_eq!(a.keyed.get(&"seth".to_owned()), b.keyed.get(&"seth".to_owned()));
    assert_eq!(
        a.keyed.get(&"chelsea".to_owned()),
        b.keyed.get(&"chelsea".to_owned())
    );
    assert_eq!(a.grouped, b.grouped);
    assert_eq!(a.listed.1, b.listed.1);
    assert_eq!(a.halves, b.halves);
    assert_eq!(a.labels, b.labels);
}
