use spiral_galaxy::body::PlacedBody;
use spiral_galaxy::classification::StarData;
use spiral_galaxy::generator::{
    generate_from_rolls, generate_star_positions_in_range, place_star, spawn_star, StarRoll,
};
use spiral_galaxy::placement::{Parameters, SpiralPoint, SpiralSample};
use spiral_galaxy::random::SeededRandomSource;
use spiral_galaxy::store::PositionStore;

fn spiral(sample: SpiralSample) -> SpiralPoint {
    let angle = sample.arm_index as f64 * (0.0002 + sample.angle_jitter as f64 * 1e-9);
    let reach = (sample.radius_mod as f64 + sample.radius_jitter as f64) * 1e-3 * angle;
    SpiralPoint {
        x: (reach * angle.cos() * sample.distance_mod as f64) as i64,
        y: (reach * angle.sin() * sample.distance_mod as f64) as i64,
    }
}

fn roll(x: i64, y: i64, class_draw: i64, nudges: Vec<(i64, i64)>) -> StarRoll {
    StarRoll { point: SpiralPoint { x, y }, class_draw, offset_x: 0, offset_y: 0, nudges }
}

#[test]
fn a_star_on_free_ground_is_stored() {
    let mut store = PositionStore::new();
    let table = StarData::default();
    let params = Parameters::default();
    let star = StarRoll {
        point: SpiralPoint { x: 1000, y: 2000 },
        class_draw: 500_000,
        offset_x: 10,
        offset_y: -20,
        nudges: Vec::new(),
    };
    assert!(place_star(&mut store, 7, &params, &table, &star));
    assert_eq!(store.bodies(), &vec![PlacedBody { x: 1010, y: 1980, radius: 100 }]);
    assert!(place_star(&mut store, 8, &params, &table, &star));
    assert_eq!(store.get(1), Some(PlacedBody { x: -1010, y: -1980, radius: 100 }));
}

#[test]
fn a_star_on_taken_ground_is_nudged_or_given_up() {
    let mut store = PositionStore::new();
    let table = StarData::default();
    let params = Parameters::default();
    assert!(place_star(&mut store, 1, &params, &table, &roll(0, 0, 500_000, Vec::new())));
    assert!(!place_star(&mut store, 1, &params, &table, &roll(50, 0, 500_000, Vec::new())));
    assert_eq!(store.len(), 1);
    assert!(place_star(
        &mut store,
        1,
        &params,
        &table,
        &roll(50, 0, 500_000, vec![(10, 0), (300, 0)])
    ));
    assert_eq!(store.get(1), Some(PlacedBody { x: 260, y: 0, radius: 100 }));
    assert!(!place_star(
        &mut store,
        1,
        &params,
        &table,
        &roll(50, 0, 500_000, vec![(10, 0), (20, 0)])
    ));
    assert_eq!(store.len(), 2);
}

#[test]
fn rolls_are_taken_in_order_one_for_each_index() {
    let mut store = PositionStore::new();
    let table = StarData::default();
    let params = Parameters::default();
    let rolls = vec![
        roll(5000, 0, 500_000, Vec::new()),
        roll(5000, 0, 100_000, Vec::new()),
        roll(-5000, 0, 100_000, Vec::new()),
        roll(0, 9000, 20, Vec::new()),
    ];
    let added = generate_from_rolls(&mut store, 5, 9, &params, &table, &rolls);
    assert_eq!(added, 2);
    assert_eq!(
        store.bodies(),
        &vec![
            PlacedBody { x: -5000, y: 0, radius: 100 },
            PlacedBody { x: 5000, y: 0, radius: 500 },
        ]
    );
}

#[test]
fn generation_ends_with_the_range_or_with_the_rolls() {
    let table = StarData::default();
    let params = Parameters::default();
    let rolls = vec![
        roll(0, 0, 500_000, Vec::new()),
        roll(10_000, 0, 500_000, Vec::new()),
        roll(20_000, 0, 500_000, Vec::new()),
    ];
    let mut short = PositionStore::new();
    assert_eq!(generate_from_rolls(&mut short, 1, 3, &params, &table, &rolls), 2);
    assert_eq!(short.len(), 2);
    let mut long = PositionStore::new();
    assert_eq!(generate_from_rolls(&mut long, 1, 100, &params, &table, &rolls), 3);
    assert_eq!(long.len(), 3);
    let mut none = PositionStore::new();
    assert_eq!(generate_from_rolls(&mut none, 3, 3, &params, &table, &rolls), 0);
    assert_eq!(generate_from_rolls(&mut none, 4, 3, &params, &table, &rolls), 0);
    assert_eq!(none.len(), 0);
    let mut edge = PositionStore::new();
    assert_eq!(generate_from_rolls(&mut edge, i64::MAX - 1, i64::MAX, &params, &table, &rolls), 1);
}

#[test]
fn equal_rolls_give_equal_stores() {
    let table = StarData::default();
    let params = Parameters { spiral_arm_count: 4, ..Parameters::default() };
    let mut rolls = Vec::new();
    let mut k: i64 = 0;
    while k < 300 {
        rolls.push(StarRoll {
            point: SpiralPoint { x: (k * 37) % 5000, y: (k * 91) % 7000 },
            class_draw: (k * 7919) % 1_000_000,
            offset_x: (k * 13) % 20_000,
            offset_y: -((k * 17) % 20_000),
            nudges: vec![(k, -k), (1000 + k, 3 * k), (-2000, 40_000 - k)],
        });
        k += 1;
    }
    let mut first = PositionStore::new();
    let mut second = PositionStore::new();
    let a = generate_from_rolls(&mut first, 1, 301, &params, &table, &rolls);
    let b = generate_from_rolls(&mut second, 1, 301, &params, &table, &rolls);
    assert_eq!(a, b);
    assert!(a > 100);
    assert_eq!(first.bodies(), second.bodies());
}

#[test]
fn drawn_stars_keep_their_distance() {
    let table = StarData::default();
    let params = Parameters::default();
    let mut store = PositionStore::new();
    let mut rng = SeededRandomSource::new(2024);
    let added =
        generate_star_positions_in_range(&mut store, &mut rng, 1, 3001, &params, &table, &spiral);
    assert!(added <= 3000);
    assert!(added > 2000);
    assert_eq!(store.len(), added);
    let bodies = store.bodies();
    let mut i = 0;
    while i < bodies.len() {
        assert!(bodies[i].is_valid());
        let mut j = i + 1;
        while j < bodies.len() {
            assert!(!bodies[i].collides(&bodies[j]));
            let dx = (bodies[i].x - bodies[j].x) as f64;
            let dy = (bodies[i].y - bodies[j].y) as f64;
            assert!((dx * dx + dy * dy).sqrt() >= (bodies[i].radius + bodies[j].radius) as f64);
            j += 1;
        }
        i += 1;
    }
}

#[test]
fn drawn_radii_come_from_the_table() {
    let table = StarData::default();
    let params = Parameters::default();
    let mut store = PositionStore::new();
    let mut rng = SeededRandomSource::new(11);
    generate_star_positions_in_range(&mut store, &mut rng, 1, 2001, &params, &table, &spiral);
    let allowed: Vec<u32> = vec![16000, 5000, 2000, 1500, 1000, 500, 100];
    let mut small = 0;
    for body in store.bodies() {
        assert!(allowed.contains(&body.radius));
        if body.radius == 100 {
            small += 1;
        }
    }
    assert!(small * 10 > store.len() * 8);
}

#[test]
fn growth_keeps_what_was_stored() {
    let table = StarData::default();
    let params = Parameters::default();
    let mut store = PositionStore::new();
    let mut rng = SeededRandomSource::new(5);
    let first =
        generate_star_positions_in_range(&mut store, &mut rng, 1, 501, &params, &table, &spiral);
    let before: Vec<PlacedBody> = store.bodies().clone();
    let second =
        generate_star_positions_in_range(&mut store, &mut rng, 501, 1001, &params, &table, &spiral);
    assert_eq!(store.len(), first + second);
    assert_eq!(&store.bodies()[..first], &before[..]);
    assert_eq!(
        generate_star_positions_in_range(&mut store, &mut rng, 9, 9, &params, &table, &spiral),
        0
    );
    assert_eq!(
        generate_star_positions_in_range(&mut store, &mut rng, 9, 3, &params, &table, &spiral),
        0
    );
    assert_eq!(store.len(), first + second);
}

#[test]
fn the_geometry_is_asked_about_a_sample_that_fits() {
    let table = StarData::default();
    let params = Parameters { spiral_arm_count: 3, ..Parameters::default() };
    let mut store = PositionStore::new();
    let mut rng = SeededRandomSource::new(8);
    let check = |sample: SpiralSample| -> SpiralPoint {
        assert_eq!(sample.arm_index, 33);
        assert!(sample.angle_jitter >= 0 && sample.angle_jitter < 760_000);
        assert!(sample.radius_jitter >= 2_000 && sample.radius_jitter < 2_200_000);
        assert_eq!(sample.radius_mod, 2_200_000);
        assert_eq!(sample.distance_mod, 60);
        SpiralPoint { x: 123_456, y: -654_321 }
    };
    assert!(spawn_star(&mut store, &mut rng, 100, &params, &table, &check));
    let body = store.get(0).unwrap();
    assert!(body.x >= -654_321 - 20_000 && body.x < -654_321 + 20_000);
    assert!(body.y >= -123_456 - 20_000 && body.y < -123_456 + 20_000);
}

#[test]
fn same_seed_gives_the_same_population() {
    let table = StarData::default();
    let params = Parameters { spiral_arm_count: 4, ..Parameters::default() };
    let mut first = PositionStore::new();
    let mut second = PositionStore::new();
    let mut a = SeededRandomSource::new(31_337);
    let mut b = SeededRandomSource::new(31_337);
    generate_star_positions_in_range(&mut first, &mut a, 1, 1501, &params, &table, &spiral);
    generate_star_positions_in_range(&mut second, &mut b, 1, 1501, &params, &table, &spiral);
    assert_eq!(first.bodies(), second.bodies());
    let mut third = PositionStore::new();
    let mut c = SeededRandomSource::new(31_338);
    generate_star_positions_in_range(&mut third, &mut c, 1, 1501, &params, &table, &spiral);
    assert_ne!(first.bodies(), third.bodies());
}

#[test]
fn empty_range_takes_no_draw() {
    let table = StarData::default();
    let params = Parameters::default();
    let mut store = PositionStore::new();
    assert!(store.place(PlacedBody { x: 1, y: 2, radius: 100 }));
    let mut used = SeededRandomSource::new(91);
    let mut fresh = SeededRandomSource::new(91);
    assert_eq!(
        generate_star_positions_in_range(&mut store, &mut used, 7, 7, &params, &table, &spiral),
        0
    );
    assert_eq!(
        generate_star_positions_in_range(&mut store, &mut used, 7, 3, &params, &table, &spiral),
        0
    );
    assert_eq!(store.bodies(), &vec![PlacedBody { x: 1, y: 2, radius: 100 }]);
    assert_eq!(used.draw(0, 1_000_000), fresh.draw(0, 1_000_000));
}
