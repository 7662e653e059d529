use cypher::tile::{TileData, TileRotation};
use cypher::wave_function_collapse::{
    can_further_collapse, lowest_entropy_idx, rotation_from_quarter_turns, wfc, TILE_HEIGHT, TILE_WIDTH,
};

#[test]
fn wfc_tests() {
    let tile0004 = TileData {
        tile_type_id: 4,
        northern_compatibility: 0.into(),
        eastern_compatibility: 5.into(),
        southern_compatibility: 0.into(),
        western_compatibility: 5.into(),
    };

    let tile0006 = TileData {
        tile_type_id: 6,
        northern_compatibility: 10.into(),
        eastern_compatibility: 0.into(),
        southern_compatibility: 10.into(),
        western_compatibility: 0.into(),
    };

    let tile0007 = TileData {
        tile_type_id: 7,
        northern_compatibility: 5.into(),
        eastern_compatibility: 0.into(),
        southern_compatibility: 5.into(),
        western_compatibility: 0.into(),
    };

    let tile0013 = TileData {
        tile_type_id: 13,
        northern_compatibility: 10.into(),
        eastern_compatibility: 11.into(),
        southern_compatibility: 10.into(),
        western_compatibility: 11.into(),
    };

    let tile0049 = TileData {
        tile_type_id: 49,
        northern_compatibility: 0.into(),
        eastern_compatibility: 0.into(),
        southern_compatibility: 0.into(),
        western_compatibility: 0.into(),
    };

    let tileset = vec![tile0004, tile0006, tile0007, tile0013, tile0049];

    let instances = wfc(&tileset);
    assert_eq!(instances.len(), TILE_WIDTH * TILE_HEIGHT);
    for instance in &instances {
        assert!(tileset.iter().any(|t| t.tile_type_id == instance.tile_data.tile_type_id));
    }
}

#[test]
fn lowest_entropy_skips_collapsed_cells() {
    let domain: Vec<Vec<u8>> = vec![vec![1], vec![1, 2, 3], vec![1, 2], vec![], vec![4, 5]];
    assert_eq!(lowest_entropy_idx(&domain), Some(2));
    assert!(can_further_collapse(&domain));
    let collapsed: Vec<Vec<u8>> = vec![vec![1], vec![], vec![2]];
    assert_eq!(lowest_entropy_idx(&collapsed), None);
    assert!(!can_further_collapse(&collapsed));
}

#[test]
fn quarter_turns_name_rotations() {
    assert_eq!(rotation_from_quarter_turns(0), TileRotation::Identity);
    assert_eq!(rotation_from_quarter_turns(1), TileRotation::Clockwise);
    assert_eq!(rotation_from_quarter_turns(2), TileRotation::Opposite);
    assert_eq!(rotation_from_quarter_turns(3), TileRotation::Counterclockwise);
}

#[test]
fn fewer_than_two_tiles_place_nothing() {
    let single = vec![TileData {
        tile_type_id: 1,
        northern_compatibility: 0.into(),
        eastern_compatibility: 0.into(),
        southern_compatibility: 0.into(),
        western_compatibility: 0.into(),
    }];
    assert!(wfc(&single).is_empty());
    assert!(wfc(&vec![]).is_empty());
}
