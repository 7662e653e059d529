use cypher::dungeon::{DungeonGenerationSettings, DungeonGenerator, TILE_SIZE};

#[test]
fn default_settings_match_the_documented_sizes() {
    let settings = DungeonGenerationSettings::default();
    assert_eq!(settings.min_x_size, 30);
    assert_eq!(settings.max_x_size, 50);
    assert_eq!(settings.min_y_size, 30);
    assert_eq!(settings.max_y_size, 50);
    assert_eq!(settings.min_rooms, 1);
    assert_eq!(settings.max_rooms, 2);
}

#[test]
fn generated_rooms_stay_within_the_settings() {
    let generator = DungeonGenerator::default();
    let settings = DungeonGenerationSettings::default();
    for _ in 0..5 {
        let dungeon = generator.generate(&settings);
        assert!(dungeon.rooms.len() >= 1 && dungeon.rooms.len() <= 2);
        for room in &dungeon.rooms {
            assert!(room.decorations.is_empty());
            let mut previous: Option<(u16, u16)> = None;
            for tile in &room.tiles {
                assert!(tile.tile_type_id <= 1);
                assert_eq!(tile.translation_x % TILE_SIZE, 0);
                assert_eq!(tile.translation_y % TILE_SIZE, 0);
                assert!(tile.translation_x < 50 * TILE_SIZE);
                assert!(tile.translation_y < 50 * TILE_SIZE);
                if let Some((x, y)) = previous {
                    assert!(y < tile.translation_y || (y == tile.translation_y && x < tile.translation_x));
                }
                previous = Some((tile.translation_x, tile.translation_y));
            }
        }
    }
}

#[test]
fn fixed_room_size_and_count() {
    let generator = DungeonGenerator { seed: 7 };
    let settings = DungeonGenerationSettings {
        min_x_size: 1,
        max_x_size: 1,
        min_y_size: 2,
        max_y_size: 2,
        min_rooms: 3,
        max_rooms: 3,
    };
    let dungeon = generator.generate(&settings);
    assert_eq!(dungeon.rooms.len(), 3);
    for room in &dungeon.rooms {
        assert!(room.tiles.len() <= 2);
        for tile in &room.tiles {
            assert_eq!(tile.translation_x, 0);
            assert!(tile.translation_y == 0 || tile.translation_y == TILE_SIZE);
        }
    }
}

#[test]
fn rooms_are_a_random_smattering_of_two_tile_types() {
    let generator = DungeonGenerator::default();
    let settings = DungeonGenerationSettings {
        min_x_size: 20,
        max_x_size: 20,
        min_y_size: 20,
        max_y_size: 20,
        min_rooms: 1,
        max_rooms: 1,
    };
    let dungeon = generator.generate(&settings);
    let room = &dungeon.rooms[0];
    // 20 by 20 cells, each holding a tile with even odds.
    assert!(room.tiles.len() > 100);
    assert!(room.tiles.len() < 300);
    assert!(room.tiles.iter().any(|t| t.tile_type_id == 0));
    assert!(room.tiles.iter().any(|t| t.tile_type_id == 1));
    assert_ne!(DungeonGenerator::default().seed, DungeonGenerator::default().seed);
}

#[test]
fn seed_folds_words_a_byte_apart() {
    assert_eq!(DungeonGenerator::seed_from(&vec![]), 0);
    assert_eq!(DungeonGenerator::seed_from(&vec![1, 2]), (1u128 << 8) | 2);
    assert_eq!(DungeonGenerator::seed_from(&vec![0x100, 1]), (0x100u128 << 8) | 1);
}
