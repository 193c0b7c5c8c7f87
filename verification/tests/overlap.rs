use spiral_galaxy::body::PlacedBody;
use spiral_galaxy::overlap::{
    resolve, resolve_with_nudges, ResolverPolicy, STAR_ATTEMPT_CAP, STAR_NUDGE_WINDOW,
};
use spiral_galaxy::random::SeededRandomSource;
use spiral_galaxy::store::PositionStore;

fn store_with_one_giant() -> PositionStore {
    let mut store = PositionStore::new();
    assert!(store.place(PlacedBody { x: 0, y: 0, radius: 1000 }));
    store
}

fn repeated(nudge: (i64, i64), times: usize) -> Vec<(i64, i64)> {
    let mut nudges = Vec::new();
    let mut k = 0;
    while k < times {
        nudges.push(nudge);
        k += 1;
    }
    nudges
}

#[test]
fn star_policy_has_the_star_budget_and_window() {
    let policy = ResolverPolicy::stars();
    assert_eq!(policy.attempt_cap(), 20);
    assert_eq!(policy.nudge_window(), 50_000);
    assert_eq!(STAR_ATTEMPT_CAP, 20);
    assert_eq!(STAR_NUDGE_WINDOW, 50_000);
}

#[test]
fn policy_needs_a_window() {
    assert!(ResolverPolicy::new(10, 0).is_none());
    assert!(ResolverPolicy::new(10, -5).is_none());
    assert!(ResolverPolicy::new(10, i64::MIN).is_none());
    assert!(ResolverPolicy::new(10, i64::MAX).is_some());
    let policy = ResolverPolicy::new(10, 600).unwrap();
    assert_eq!(policy.attempt_cap(), 10);
    assert_eq!(policy.nudge_window(), 600);
    assert!(ResolverPolicy::new(0, 1).is_some());
}

#[test]
fn free_candidate_is_accepted_where_it_stands() {
    let store = store_with_one_giant();
    let candidate = PlacedBody { x: 5000, y: 0, radius: 100 };
    let nudges = repeated((7, 7), 20);
    assert_eq!(
        resolve_with_nudges(candidate, &store, &nudges, &ResolverPolicy::stars()),
        Some(candidate)
    );
    assert_eq!(
        resolve_with_nudges(candidate, &store, &Vec::new(), &ResolverPolicy::stars()),
        Some(candidate)
    );
}

#[test]
fn blocked_candidate_moves_by_the_nudges_in_order() {
    let store = store_with_one_giant();
    let candidate = PlacedBody { x: 0, y: 0, radius: 100 };
    let nudges = vec![(500, 0), (0, 2000), (9000, 9000)];
    assert_eq!(
        resolve_with_nudges(candidate, &store, &nudges, &ResolverPolicy::stars()),
        Some(PlacedBody { x: 500, y: 2000, radius: 100 })
    );
}

#[test]
fn candidate_that_stays_blocked_is_given_up() {
    let store = store_with_one_giant();
    let candidate = PlacedBody { x: 0, y: 0, radius: 100 };
    let nudges = repeated((1, 0), 40);
    assert_eq!(resolve_with_nudges(candidate, &store, &nudges, &ResolverPolicy::stars()), None);
}

#[test]
fn candidate_free_after_eighteen_nudges_is_accepted() {
    let store = store_with_one_giant();
    let candidate = PlacedBody { x: 0, y: 0, radius: 100 };
    let mut nudges = repeated((0, 0), 17);
    nudges.push((1100, 0));
    nudges.push((50, 50));
    assert_eq!(
        resolve_with_nudges(candidate, &store, &nudges, &ResolverPolicy::stars()),
        Some(PlacedBody { x: 1100, y: 0, radius: 100 })
    );
}

#[test]
fn candidate_that_needs_the_last_attempts_is_given_up() {
    let store = store_with_one_giant();
    let candidate = PlacedBody { x: 0, y: 0, radius: 100 };
    let mut nineteen = repeated((0, 0), 18);
    nineteen.push((1100, 0));
    assert_eq!(resolve_with_nudges(candidate, &store, &nineteen, &ResolverPolicy::stars()), None);
    let mut twenty = repeated((0, 0), 19);
    twenty.push((1100, 0));
    assert_eq!(resolve_with_nudges(candidate, &store, &twenty, &ResolverPolicy::stars()), None);
}

#[test]
fn candidate_is_given_up_when_the_nudges_run_out() {
    let store = store_with_one_giant();
    let candidate = PlacedBody { x: 0, y: 0, radius: 100 };
    let nudges = vec![(10, 0), (10, 0)];
    assert_eq!(resolve_with_nudges(candidate, &store, &nudges, &ResolverPolicy::stars()), None);
}

#[test]
fn smaller_budget_gives_up_sooner() {
    let store = store_with_one_giant();
    let candidate = PlacedBody { x: 0, y: 0, radius: 100 };
    let policy = ResolverPolicy::new(10, 600).unwrap();
    let mut eight = repeated((0, 0), 7);
    eight.push((1100, 0));
    assert_eq!(
        resolve_with_nudges(candidate, &store, &eight, &policy),
        Some(PlacedBody { x: 1100, y: 0, radius: 100 })
    );
    let mut nine = repeated((0, 0), 8);
    nine.push((1100, 0));
    assert_eq!(resolve_with_nudges(candidate, &store, &nine, &policy), None);
}

#[test]
fn budget_of_one_accepts_nothing() {
    let store = PositionStore::new();
    let candidate = PlacedBody { x: 0, y: 0, radius: 100 };
    let policy = ResolverPolicy::new(1, 600).unwrap();
    assert_eq!(resolve_with_nudges(candidate, &store, &Vec::new(), &policy), None);
    let two = ResolverPolicy::new(2, 600).unwrap();
    assert_eq!(resolve_with_nudges(candidate, &store, &Vec::new(), &two), Some(candidate));
}

#[test]
fn invalid_candidate_is_never_accepted() {
    let store = PositionStore::new();
    let candidate = PlacedBody { x: 0, y: 0, radius: 0 };
    assert_eq!(
        resolve_with_nudges(candidate, &store, &repeated((5, 5), 3), &ResolverPolicy::stars()),
        None
    );
    let mut rng = SeededRandomSource::new(3);
    assert_eq!(resolve(candidate, &store, &mut rng, &ResolverPolicy::stars()), None);
}

#[test]
fn drawn_nudges_leave_an_accepted_candidate_clear() {
    let store = store_with_one_giant();
    let policy = ResolverPolicy::stars();
    let mut rng = SeededRandomSource::new(77);
    let mut accepted = 0;
    let mut moved = 0;
    let mut k = 0;
    while k < 200 {
        let candidate = PlacedBody { x: k, y: -k, radius: 100 };
        if let Some(body) = resolve(candidate, &store, &mut rng, &policy) {
            accepted += 1;
            assert!(!store.is_blocked(&body));
            assert!(body.is_valid());
            assert_eq!(body.radius, 100);
            if body != candidate {
                moved += 1;
            }
        }
        k += 1;
    }
    assert!(accepted > 150);
    assert_eq!(moved, accepted);
}

#[test]
fn drawn_nudges_stay_in_the_window() {
    let store = store_with_one_giant();
    let policy = ResolverPolicy::new(3, 2000).unwrap();
    let mut rng = SeededRandomSource::new(5);
    let mut k = 0;
    while k < 200 {
        let candidate = PlacedBody { x: 0, y: 0, radius: 100 };
        if let Some(body) = resolve(candidate, &store, &mut rng, &policy) {
            assert!(body.x >= -2000 && body.x < 2000);
            assert!(body.y >= -2000 && body.y < 2000);
            assert!(!store.is_blocked(&body));
        }
        k += 1;
    }
}

#[test]
fn candidate_that_overlaps_nothing_takes_no_draw() {
    let store = store_with_one_giant();
    let mut used = SeededRandomSource::new(14);
    let mut fresh = SeededRandomSource::new(14);
    let candidate = PlacedBody { x: 5000, y: 0, radius: 100 };
    assert_eq!(resolve(candidate, &store, &mut used, &ResolverPolicy::stars()), Some(candidate));
    let none = ResolverPolicy::new(0, 50).unwrap();
    let blocked = PlacedBody { x: 0, y: 0, radius: 100 };
    assert_eq!(resolve(blocked, &store, &mut used, &none), None);
    assert_eq!(used.draw(0, 1_000_000), fresh.draw(0, 1_000_000));
}
