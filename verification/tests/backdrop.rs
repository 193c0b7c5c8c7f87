use spiral_galaxy::backdrop::{
    backdrop_star, backdrop_star_from, BackdropRoll, BACKDROP_ATTEMPT_CAP, BACKDROP_STEPS,
    BACKDROP_TAG,
};
use spiral_galaxy::body::{PlacedBody, WORLD_LIMIT};
use spiral_galaxy::classification::{StarColor, StarData};
use spiral_galaxy::events::{SpawnVisual, StarCount};
use spiral_galaxy::random::SeededRandomSource;
use spiral_galaxy::store::PositionStore;

fn store_with_one_giant() -> PositionStore {
    let mut store = PositionStore::new();
    assert!(store.place(PlacedBody { x: 0, y: 0, radius: 1000 }));
    store
}

fn backdrop_roll(radius: i64, x: i64, y: i64, nudges: Vec<(i64, i64)>) -> BackdropRoll {
    BackdropRoll { radius, x, y, nudges }
}

#[test]
fn backdrop_constants() {
    assert_eq!(BACKDROP_STEPS, 20_000);
    assert_eq!(BACKDROP_ATTEMPT_CAP, 10);
    assert_eq!(BACKDROP_TAG, 11);
}

#[test]
fn backdrop_star_on_free_ground_is_shown_where_it_was_drawn() {
    let table = StarData::default();
    let store = store_with_one_giant();
    assert_eq!(
        backdrop_star_from(&store, &table, &backdrop_roll(480, 5000, -7, Vec::new())),
        Some(SpawnVisual {
            index: StarCount(11),
            x: 5000,
            y: -7,
            radius: 480,
            color: StarColor { red: 30, green: 0, blue: 0 },
        })
    );
    assert_eq!(
        backdrop_star_from(&store, &table, &backdrop_roll(481, 5000, -7, vec![(3, 3)])),
        Some(SpawnVisual {
            index: StarCount(11),
            x: 5000,
            y: -7,
            radius: 481,
            color: StarColor { red: 254, green: 170, blue: 52 },
        })
    );
}

#[test]
fn backdrop_star_on_taken_ground_is_nudged_within_its_budget() {
    let table = StarData::default();
    let store = store_with_one_giant();
    let moved = backdrop_star_from(
        &store,
        &table,
        &backdrop_roll(100, 0, 0, vec![(99, 0), (99, 0), (0, 1200), (7, 7)]),
    );
    assert_eq!(
        moved,
        Some(SpawnVisual {
            index: StarCount(11),
            x: 198,
            y: 1200,
            radius: 100,
            color: StarColor { red: 30, green: 0, blue: 0 },
        })
    );
    let mut eight: Vec<(i64, i64)> = vec![(0, 0); 7];
    eight.push((1100, 0));
    assert!(backdrop_star_from(&store, &table, &backdrop_roll(100, 0, 0, eight)).is_some());
    let mut nine: Vec<(i64, i64)> = vec![(0, 0); 8];
    nine.push((1100, 0));
    assert_eq!(backdrop_star_from(&store, &table, &backdrop_roll(100, 0, 0, nine)), None);
    assert_eq!(backdrop_star_from(&store, &table, &backdrop_roll(100, 0, 0, Vec::new())), None);
}

#[test]
fn backdrop_roll_without_a_radius_gives_nothing() {
    let table = StarData::default();
    let store = PositionStore::new();
    assert_eq!(backdrop_star_from(&store, &table, &backdrop_roll(0, 1, 1, Vec::new())), None);
    assert_eq!(backdrop_star_from(&store, &table, &backdrop_roll(-4, 1, 1, Vec::new())), None);
    assert_eq!(
        backdrop_star_from(&store, &table, &backdrop_roll(4_294_967_296, 1, 1, Vec::new())),
        None
    );
    let far = backdrop_star_from(
        &store,
        &table,
        &backdrop_roll(4_294_967_295, i64::MAX, i64::MIN, Vec::new()),
    )
    .unwrap();
    assert_eq!(far.x, WORLD_LIMIT);
    assert_eq!(far.y, -WORLD_LIMIT);
    assert_eq!(far.radius, u32::MAX);
    assert_eq!(far.color, StarColor { red: 5, green: 5, blue: 250 });
}

#[test]
fn drawn_backdrop_stars_lie_in_their_ranges() {
    let table = StarData::default();
    let store = store_with_one_giant();
    let mut rng = SeededRandomSource::new(808);
    let mut shown = 0;
    let mut radii_differ = false;
    let mut first_radius = 0;
    let mut step: i64 = 1;
    while step < 3000 {
        if let Some(visual) = backdrop_star(step, &store, &table, &mut rng) {
            shown += 1;
            assert_eq!(visual.index, StarCount(11));
            assert!(visual.radius >= 10 && visual.radius < 600);
            let reach = step * 90 + 10 * visual.radius as i64;
            assert!(visual.x >= -reach && visual.x < reach);
            assert!(visual.y >= -reach && visual.y < reach);
            let body = PlacedBody { x: visual.x, y: visual.y, radius: visual.radius };
            assert!(!store.is_blocked(&body));
            if first_radius == 0 {
                first_radius = visual.radius;
            } else if visual.radius != first_radius {
                radii_differ = true;
            }
        }
        step += 1;
    }
    assert!(shown > 2500);
    assert!(radii_differ);
}

#[test]
fn step_without_a_scatter_takes_no_draw() {
    let table = StarData::default();
    let store = PositionStore::new();
    let mut used = SeededRandomSource::new(4);
    let mut fresh = SeededRandomSource::new(4);
    assert_eq!(backdrop_star(0, &store, &table, &mut used), None);
    assert_eq!(backdrop_star(-1, &store, &table, &mut used), None);
    assert_eq!(backdrop_star(i64::MAX / 90 + 1, &store, &table, &mut used), None);
    assert_eq!(used.draw(0, 1_000_000), fresh.draw(0, 1_000_000));
    assert!(backdrop_star(i64::MAX / 90, &store, &table, &mut used).is_some());
}
