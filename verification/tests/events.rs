use spiral_galaxy::body::PlacedBody;
use spiral_galaxy::classification::{StarColor, StarData};
use spiral_galaxy::events::{spawn_visuals, SpawnVisual, StarCount};

#[test]
fn tags_beyond_the_target_go() {
    assert!(StarCount(1001).is_beyond(1000));
    assert!(!StarCount(1000).is_beyond(1000));
    assert!(!StarCount(1).is_beyond(1000));
    assert!(StarCount(i64::MAX).is_beyond(0));
    assert!(!StarCount(i64::MIN).is_beyond(i64::MIN));
}

#[test]
fn visuals_start_at_the_given_place() {
    let table = StarData::default();
    let bodies = vec![
        PlacedBody { x: 1, y: 2, radius: 1000 },
        PlacedBody { x: 3, y: 4, radius: 1500 },
        PlacedBody { x: 5, y: 6, radius: 2000 },
        PlacedBody { x: 7, y: 8, radius: 480 },
        PlacedBody { x: 9, y: 10, radius: 481 },
    ];
    let visuals = spawn_visuals(&bodies, 1, &table);
    assert_eq!(
        visuals,
        vec![
            SpawnVisual {
                index: StarCount(2),
                x: 3,
                y: 4,
                radius: 1500,
                color: StarColor { red: 250, green: 250, blue: 250 },
            },
            SpawnVisual {
                index: StarCount(3),
                x: 5,
                y: 6,
                radius: 2000,
                color: StarColor { red: 10, green: 10, blue: 240 },
            },
            SpawnVisual {
                index: StarCount(4),
                x: 7,
                y: 8,
                radius: 480,
                color: StarColor { red: 30, green: 0, blue: 0 },
            },
            SpawnVisual {
                index: StarCount(5),
                x: 9,
                y: 10,
                radius: 481,
                color: StarColor { red: 254, green: 170, blue: 52 },
            },
        ]
    );
    assert_eq!(spawn_visuals(&bodies, 0, &table).len(), 5);
    assert_eq!(
        spawn_visuals(&bodies, 0, &table)[0].color,
        StarColor { red: 200, green: 100, blue: 100 }
    );
    assert_eq!(spawn_visuals(&bodies, 5, &table), Vec::new());
    assert_eq!(spawn_visuals(&bodies, 9, &table), Vec::new());
}
