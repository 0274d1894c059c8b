use unwrappable::unwrap_or;
use unwrappable::unwrap_or_match::dispatch_guards;
use unwrappable::unwrap_or_match::unwrap_or_match_guards;
use unwrappable::unwrap_or_match::unwrap_or_match_guards_default;
use unwrappable::unwrap_or_match::unwrap_or_match_patterns;
use unwrappable::unwrap_or_match::CanonicalDefault;
use unwrappable::unwrap_or_match::FailurePattern;
use unwrappable::unwrap_or_match::GuardClause;
use unwrappable::unwrap_or_match::PatternClause;
use unwrappable::unwrappable::Classification;
use unwrappable::Unwrappable;

#[test]
fn classify_tells_the_three_shapes_apart() {
    assert!(matches!(
        Unwrappable::from(Some(5)).classify(),
        Classification::Present(5)
    ));
    assert!(matches!(
        Unwrappable::from(None::<i32>).classify(),
        Classification::AbsentEmpty
    ));
    assert!(matches!(
        Unwrappable::from(Ok::<i32, i32>(5)).classify(),
        Classification::Present(5)
    ));
    assert!(matches!(
        Unwrappable::from(Err::<i32, i32>(7)).classify(),
        Classification::AbsentFailure(7)
    ));
}

#[test]
fn round_trip_is_lossless() {
    assert!(matches!(
        Unwrappable::from(Some(5)),
        Unwrappable::FromPresence(Some(5))
    ));
    assert!(matches!(
        Unwrappable::from(Ok::<i32, i32>(6)),
        Unwrappable::FromOutcome(Ok(6))
    ));
    assert!(matches!(
        Unwrappable::from(Some(5)).classify(),
        Classification::Present(5)
    ));
    assert!(matches!(
        Unwrappable::from(Ok::<i32, i32>(6)).classify(),
        Classification::Present(6)
    ));
}

#[test]
fn unwrap_or_takes_fallback_on_failure_payload() {
    assert_eq!(unwrap_or(Unwrappable::from(Err::<i32, i32>(7)), 5), 5);
    assert_eq!(unwrap_or(Unwrappable::from(Ok::<i32, i32>(3)), 5), 3);
}

#[test]
fn side_effecting_fallback_runs_exactly_once_per_absent_extraction() {
    let mut counter = 0;
    for _ in 0..3 {
        let _ = match Unwrappable::from(Some(1)).classify() {
            Classification::Present(v) => v,
            _ => {
                counter += 1;
                0
            },
        };
    }
    assert_eq!(counter, 0);

    let mut counter = 0;
    for _ in 0..3 {
        let _ = match Unwrappable::from(None::<i32>).classify() {
            Classification::Present(v) => v,
            _ => {
                counter += 1;
                0
            },
        };
    }
    assert_eq!(counter, 3);
}

#[test]
fn first_true_guard_wins_even_if_a_later_guard_is_true() {
    let clauses = vec![
        GuardClause { guard: false, result: 10 },
        GuardClause { guard: true, result: 20 },
        GuardClause { guard: true, result: 30 },
    ];
    assert_eq!(
        unwrap_or_match_guards(Unwrappable::from(None), clauses, 0),
        20
    );
}

#[test]
fn present_value_shadows_every_guard() {
    let clauses = vec![
        GuardClause { guard: true, result: 20 },
        GuardClause { guard: true, result: 30 },
    ];
    assert_eq!(
        unwrap_or_match_guards(Unwrappable::from(Some(1)), clauses, 0),
        1
    );
}

#[test]
fn guard_dispatch_on_no_true_guard_yields_nothing() {
    let clauses = vec![
        GuardClause { guard: false, result: 10 },
        GuardClause { guard: false, result: 20 },
    ];
    assert!(dispatch_guards(clauses).is_none());
    assert_eq!(
        unwrap_or_match_guards(Unwrappable::from(None), vec![], 9),
        9
    );
}

#[test]
fn missing_catch_all_falls_back_to_numeric_zero() {
    let clauses = vec![GuardClause { guard: false, result: 10 }];
    assert_eq!(
        unwrap_or_match_guards_default(Unwrappable::from(None), clauses),
        0
    );
}

#[test]
fn missing_catch_all_falls_back_to_empty_sequence() {
    let clauses = vec![GuardClause { guard: false, result: vec![1u8, 2] }];
    let r: Vec<u8> = unwrap_or_match_guards_default(Unwrappable::from(None), clauses);
    assert_eq!(r, Vec::<u8>::new());
}

#[test]
fn canonical_defaults_are_the_expected_values() {
    assert_eq!(<() as CanonicalDefault>::canonical_default(), ());
    assert_eq!(<bool as CanonicalDefault>::canonical_default(), false);
    assert_eq!(<i32 as CanonicalDefault>::canonical_default(), 0);
    assert_eq!(<i64 as CanonicalDefault>::canonical_default(), 0);
    assert_eq!(<u32 as CanonicalDefault>::canonical_default(), 0);
    assert_eq!(<u64 as CanonicalDefault>::canonical_default(), 0);
    assert_eq!(<usize as CanonicalDefault>::canonical_default(), 0);
    assert_eq!(<Vec<i32> as CanonicalDefault>::canonical_default(), Vec::<i32>::new());
}

#[test]
fn first_matching_guard_satisfying_pattern_wins() {
    let clauses = vec![
        PatternClause { pattern: FailurePattern::Exact(1), guard: true, result: 10 },
        PatternClause { pattern: FailurePattern::Exact(2), guard: false, result: 20 },
        PatternClause { pattern: FailurePattern::Exact(2), guard: true, result: 30 },
        PatternClause { pattern: FailurePattern::Wildcard, guard: true, result: 0 },
    ];
    assert_eq!(
        unwrap_or_match_patterns(Unwrappable::from(Err::<i32, i32>(2)), clauses),
        30
    );
}

#[test]
fn present_value_shadows_every_pattern() {
    let clauses = vec![
        PatternClause { pattern: FailurePattern::Wildcard, guard: true, result: 0 },
    ];
    assert_eq!(
        unwrap_or_match_patterns(Unwrappable::from(Ok::<i32, i32>(4)), clauses),
        4
    );
    assert_eq!(
        unwrap_or_match_patterns(Unwrappable::from(Some(4)), Vec::new()),
        4
    );
}

#[test]
fn presence_absence_is_decided_by_guards_alone() {
    let clauses = vec![
        PatternClause { pattern: FailurePattern::Wildcard, guard: false, result: 1 },
        PatternClause { pattern: FailurePattern::Wildcard, guard: true, result: 2 },
    ];
    assert_eq!(
        unwrap_or_match_patterns(Unwrappable::from(None::<i32>), clauses),
        2
    );
}
