use cypher::tile::{
    TileAdjacencyType, TileCompatability, TileData, TileInstance, TileRotation, TileSide,
};

#[test]
fn testing() {
    let scoped_tile_data = TileData {
        tile_type_id: 1,
        northern_compatibility: 1.into(),
        eastern_compatibility: 1.into(),
        southern_compatibility: 1.into(),
        western_compatibility: 1.into(),
    };

    let fixed_tile = TileInstance {
        tile_data: &scoped_tile_data,
        rotation: TileRotation::Identity,
    };

    let tile_b = TileData {
        tile_type_id: 2,
        northern_compatibility: 0.into(),
        eastern_compatibility: 0.into(),
        southern_compatibility: 1.into(),
        western_compatibility: 2.into(),
    };

    let compats = TileData::get_compatibilities(&fixed_tile, &tile_b);
    for c in compats {
        println!(
            "A rotated {:?}; B rotated {:?}; Type: {:?}",
            c.tile_a_rotation, c.tile_b_rotation, c.adjacency
        );
    }
}

#[test]
fn compatibilities_of_the_sample_tiles() {
    let fixed_data = TileData {
        tile_type_id: 1,
        northern_compatibility: 1.into(),
        eastern_compatibility: 1.into(),
        southern_compatibility: 1.into(),
        western_compatibility: 1.into(),
    };
    let fixed_tile = TileInstance { tile_data: &fixed_data, rotation: TileRotation::Identity };
    let tile_b = TileData {
        tile_type_id: 2,
        northern_compatibility: 0.into(),
        eastern_compatibility: 0.into(),
        southern_compatibility: 1.into(),
        western_compatibility: 2.into(),
    };
    let found: Vec<(TileRotation, TileAdjacencyType)> = TileData::get_compatibilities(&fixed_tile, &tile_b)
        .iter()
        .map(|c| {
            assert_eq!(c.tile_a.tile_type_id, 1);
            assert_eq!(c.tile_a_rotation, TileRotation::Identity);
            assert_eq!(c.tile_b.tile_type_id, 2);
            (c.tile_b_rotation, c.adjacency)
        })
        .collect();
    assert_eq!(
        found,
        vec![
            (TileRotation::Identity, TileAdjacencyType::SouthNorth),
            (TileRotation::Clockwise, TileAdjacencyType::WestEast),
            (TileRotation::Opposite, TileAdjacencyType::NorthSouth),
            (TileRotation::Counterclockwise, TileAdjacencyType::EastWest),
        ]
    );
}

#[test]
fn no_compatibilities_when_no_side_fits() {
    let a = TileData {
        tile_type_id: 1,
        northern_compatibility: 1.into(),
        eastern_compatibility: 1.into(),
        southern_compatibility: 1.into(),
        western_compatibility: 1.into(),
    };
    let b = TileData {
        tile_type_id: 2,
        northern_compatibility: 3.into(),
        eastern_compatibility: 3.into(),
        southern_compatibility: 3.into(),
        western_compatibility: 3.into(),
    };
    let fixed = TileInstance { tile_data: &a, rotation: TileRotation::Clockwise };
    assert!(TileData::get_compatibilities(&fixed, &b).is_empty());
}

#[test]
fn compatibility_packs_into_three_bytes() {
    let c: TileCompatability = 0x0A0B0Cu32.into();
    assert_eq!(c, TileCompatability::new(0x0A, 0x0B, 0x0C));
    let back: u32 = c.into();
    assert_eq!(back, 0x0A0B0C);
    let high: TileCompatability = 0xFF0A0B0Cu32.into();
    assert_eq!(high, TileCompatability::new(0x0A, 0x0B, 0x0C));
}

#[test]
fn rotated_sides_follow_the_turn() {
    let tile = TileData {
        tile_type_id: 9,
        northern_compatibility: 1.into(),
        eastern_compatibility: 2.into(),
        southern_compatibility: 3.into(),
        western_compatibility: 4.into(),
    };
    let n: TileCompatability = 1.into();
    let e: TileCompatability = 2.into();
    let s: TileCompatability = 3.into();
    let w: TileCompatability = 4.into();
    assert_eq!(TileData::get_compatibility(&tile, TileRotation::Identity, TileSide::North), n);
    assert_eq!(TileData::get_compatibility(&tile, TileRotation::Clockwise, TileSide::North), w);
    assert_eq!(TileData::get_compatibility(&tile, TileRotation::Opposite, TileSide::North), s);
    assert_eq!(TileData::get_compatibility(&tile, TileRotation::Counterclockwise, TileSide::North), e);
    assert_eq!(TileData::get_compatibility(&tile, TileRotation::Clockwise, TileSide::East), n);
}

#[test]
fn compatibility_is_symmetric_on_an_example() {
    let a = TileData {
        tile_type_id: 1,
        northern_compatibility: 5.into(),
        eastern_compatibility: 6.into(),
        southern_compatibility: 7.into(),
        western_compatibility: 8.into(),
    };
    let b = TileData {
        tile_type_id: 2,
        northern_compatibility: 7.into(),
        eastern_compatibility: 0.into(),
        southern_compatibility: 0.into(),
        western_compatibility: 0.into(),
    };
    assert!(TileData::is_compatible(&a, TileRotation::Identity, &b, TileRotation::Identity, TileAdjacencyType::NorthSouth));
    assert!(TileData::is_compatible(&b, TileRotation::Identity, &a, TileRotation::Identity, TileAdjacencyType::SouthNorth));
    assert!(!TileData::is_compatible(&a, TileRotation::Identity, &b, TileRotation::Identity, TileAdjacencyType::EastWest));
    // Turning both tiles by the same quarter turn keeps the fit, along the turned adjacency.
    assert!(TileData::is_compatible(&a, TileRotation::Clockwise, &b, TileRotation::Clockwise, TileAdjacencyType::EastWest));
}
