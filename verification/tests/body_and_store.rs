use spiral_galaxy::body::{clamp_sum, PlacedBody, WORLD_LIMIT};
use spiral_galaxy::store::PositionStore;

#[test]
fn circles_that_touch_do_not_overlap() {
    let a = PlacedBody { x: 0, y: 0, radius: 250 };
    let b = PlacedBody { x: 300, y: 400, radius: 250 };
    assert!(!a.collides(&b));
    assert!(!b.collides(&a));
}

#[test]
fn circles_closer_than_their_radii_overlap() {
    let a = PlacedBody { x: 0, y: 0, radius: 250 };
    let b = PlacedBody { x: 300, y: 400, radius: 251 };
    assert!(a.collides(&b));
    assert!(b.collides(&a));
    let c = PlacedBody { x: -10, y: 0, radius: 1 };
    let d = PlacedBody { x: -10, y: 0, radius: 1 };
    assert!(c.collides(&d));
}

#[test]
fn overlap_is_decided_at_the_ends_of_the_machine_range() {
    let a = PlacedBody { x: i64::MAX, y: i64::MIN, radius: u32::MAX };
    let b = PlacedBody { x: i64::MIN, y: i64::MAX, radius: u32::MAX };
    assert!(!a.collides(&b));
    assert!(a.collides(&a));
    let c = PlacedBody { x: i64::MAX - 8_000_000_000, y: i64::MIN, radius: u32::MAX };
    assert!(a.collides(&c));
    let d = PlacedBody { x: i64::MAX - 8_589_934_590, y: i64::MIN, radius: u32::MAX };
    assert!(!a.collides(&d));
    let e = PlacedBody { x: i64::MAX - 8_589_934_589, y: i64::MIN, radius: u32::MAX };
    assert!(a.collides(&e));
}

#[test]
fn positions_are_clamped_to_the_world() {
    let body = PlacedBody::new(2_000_000_000_000, -2_000_000_000_000, 5);
    assert_eq!(body.x, WORLD_LIMIT);
    assert_eq!(body.y, -WORLD_LIMIT);
    assert_eq!(body.radius, 5);
    let moved = body.nudged(-5, 7);
    assert_eq!(moved.x, WORLD_LIMIT - 5);
    assert_eq!(moved.y, -WORLD_LIMIT + 7);
    let pushed = moved.nudged(i64::MAX, i64::MIN);
    assert_eq!(pushed.x, WORLD_LIMIT);
    assert_eq!(pushed.y, -WORLD_LIMIT);
    assert_eq!(clamp_sum(i64::MAX, i64::MAX), WORLD_LIMIT);
    assert_eq!(clamp_sum(i64::MIN, i64::MIN), -WORLD_LIMIT);
    assert_eq!(clamp_sum(40, 2), 42);
}

#[test]
fn a_body_needs_a_positive_radius_and_a_place_in_the_world() {
    assert!(PlacedBody { x: 0, y: 0, radius: 1 }.is_valid());
    assert!(!PlacedBody { x: 0, y: 0, radius: 0 }.is_valid());
    assert!(!PlacedBody { x: WORLD_LIMIT + 1, y: 0, radius: 1 }.is_valid());
    assert!(!PlacedBody { x: 0, y: -WORLD_LIMIT - 1, radius: 1 }.is_valid());
    assert!(PlacedBody { x: WORLD_LIMIT, y: -WORLD_LIMIT, radius: 1 }.is_valid());
}

#[test]
fn store_accepts_what_overlaps_nothing() {
    let mut store = PositionStore::new();
    assert_eq!(store.len(), 0);
    let a = PlacedBody { x: 0, y: 0, radius: 100 };
    let b = PlacedBody { x: 150, y: 0, radius: 100 };
    let c = PlacedBody { x: 200, y: 0, radius: 100 };
    assert!(store.place(a));
    assert!(store.is_blocked(&b));
    assert!(!store.place(b));
    assert!(!store.is_blocked(&c));
    assert!(store.place(c));
    assert_eq!(store.len(), 2);
    assert_eq!(store.get(0), Some(a));
    assert_eq!(store.get(1), Some(c));
    assert_eq!(store.get(2), None);
    assert_eq!(store.bodies(), &vec![a, c]);
}

#[test]
fn store_refuses_an_invalid_body() {
    let mut store = PositionStore::new();
    assert!(!store.place(PlacedBody { x: 0, y: 0, radius: 0 }));
    assert!(!store.place(PlacedBody { x: WORLD_LIMIT + 1, y: 0, radius: 3 }));
    assert_eq!(store.len(), 0);
}

#[test]
fn store_shrinks_from_the_tail() {
    let mut store = PositionStore::new();
    let mut k: i64 = 0;
    while k < 5 {
        assert!(store.place(PlacedBody { x: k * 1000, y: 0, radius: 10 }));
        k += 1;
    }
    store.remove_tail(0);
    assert_eq!(store.len(), 5);
    store.remove_tail(2);
    assert_eq!(store.len(), 3);
    assert_eq!(store.get(2), Some(PlacedBody { x: 2000, y: 0, radius: 10 }));
    assert_eq!(store.get(3), None);
    store.remove_tail(7);
    assert_eq!(store.len(), 0);
    store.remove_tail(1);
    assert_eq!(store.len(), 0);
}

#[test]
fn store_clear_removes_everything() {
    let mut store = PositionStore::new();
    assert!(store.place(PlacedBody { x: 1, y: 1, radius: 1 }));
    assert!(store.place(PlacedBody { x: 100, y: 100, radius: 1 }));
    assert_eq!(store.len(), 2);
    store.clear();
    assert_eq!(store.len(), 0);
    assert!(!store.is_blocked(&PlacedBody { x: 1, y: 1, radius: 1 }));
}
