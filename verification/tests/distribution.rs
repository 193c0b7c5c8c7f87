use spiral_galaxy::classification::{EnabledClasses, StarData, CLASS_DRAW_CEILING};
use spiral_galaxy::random::SeededRandomSource;

fn share(count: u64, total: u64) -> f64 {
    count as f64 / total as f64
}

#[test]
fn resolved_radii_follow_the_rarity_weights() {
    let table = StarData::default();
    let all = EnabledClasses::all();
    let mut rng = SeededRandomSource::new(20_240_101);
    let radii: Vec<u32> = vec![16000, 5000, 2000, 1500, 1000, 500, 100];
    let weights: Vec<f64> = vec![
        31.0 / 1e6,
        2370.0 / 1e6,
        6600.0 / 1e6,
        21000.0 / 1e6,
        40000.0 / 1e6,
        50000.0 / 1e6,
        879999.0 / 1e6,
    ];
    let mut counts: Vec<u64> = vec![0; 7];
    let total: u64 = 100_000;
    let mut k = 0;
    while k < total {
        let draw = rng.draw(0, CLASS_DRAW_CEILING);
        let radius = table.spawning_radius(draw, &all);
        let place = radii.iter().position(|r| *r == radius).unwrap();
        counts[place] += 1;
        k += 1;
    }
    let mut c = 0;
    while c < 7 {
        let expected = weights[c];
        let spread = (expected * (1.0 - expected) / total as f64).sqrt();
        let off = (share(counts[c], total) - expected).abs();
        assert!(off <= 5.0 * spread + 0.0001);
        c += 1;
    }
    assert_eq!(counts.iter().sum::<u64>(), total);
}

#[test]
fn every_draw_of_the_space_lands_in_one_band() {
    let table = StarData::default();
    let all = EnabledClasses::all();
    let mut counts: Vec<u64> = vec![0; 7];
    let radii: Vec<u32> = vec![16000, 5000, 2000, 1500, 1000, 500, 100];
    let mut draw: i64 = 0;
    while draw < CLASS_DRAW_CEILING {
        let radius = table.spawning_radius(draw, &all);
        let place = radii.iter().position(|r| *r == radius).unwrap();
        counts[place] += 1;
        draw += 1;
    }
    assert_eq!(counts, vec![31, 2370, 6600, 21000, 40000, 50000, 879999]);
}

#[test]
fn switching_classes_off_does_not_rescale_the_rest() {
    let table = StarData::default();
    let mut enabled = EnabledClasses::all();
    enabled.m_class = false;
    enabled.g_class = false;
    let radii: Vec<u32> = vec![16000, 5000, 2000, 1500, 1000, 500, 100, 70];
    let mut counts: Vec<u64> = vec![0; 8];
    let mut draw: i64 = 0;
    while draw < CLASS_DRAW_CEILING {
        let radius = table.spawning_radius(draw, &enabled);
        let place = radii.iter().position(|r| *r == radius).unwrap();
        counts[place] += 1;
        draw += 1;
    }
    assert_eq!(counts, vec![31, 2370, 6600, 61000, 0, 929999, 0, 0]);
    let mut common_only = EnabledClasses::all();
    common_only.o_class = false;
    common_only.b_class = false;
    let mut fallback = 0;
    let mut rare: i64 = 0;
    while rare < CLASS_DRAW_CEILING {
        if table.spawning_radius(rare, &common_only) == 70 {
            fallback += 1;
        }
        rare += 1;
    }
    assert_eq!(fallback, 2401);
}
