//! Tiles of a dungeon and the rules by which two tiles may stand side by side.
//!
//! Each side of a tile carries a [`TileCompatability`], three bytes packed into a `u32`.
//! Two sides fit together when their packed values are equal. A tile placed with a
//! rotation shows, on each of its sides, the compatibility of the side that the rotation
//! turned there.

use vstd::prelude::*;
use vstd::std_specs::cmp::PartialEqSpecImpl;
use vstd::std_specs::convert::FromSpecImpl;

verus! {

/// The compatibility of one side of a tile.
#[derive(Clone, Copy, Debug)]
pub struct TileCompatability {
    pub left: u8,
    pub middle: u8,
    pub right: u8,
    // unused - room for another u8 if we wish
}

/// The `u32` that packs a compatibility: `left` in bits 16..24, `middle` in bits 8..16,
/// `right` in bits 0..8.
pub open spec fn packed(c: TileCompatability) -> int {
    c.left as int * 65536 + c.middle as int * 256 + c.right as int
}

/// The compatibility that the low 24 bits of `value` describe.
pub open spec fn unpacked(value: u32) -> TileCompatability {
    TileCompatability {
        left: ((value as int / 65536) % 256) as u8,
        middle: ((value as int / 256) % 256) as u8,
        right: (value as int % 256) as u8,
    }
}

impl TileCompatability {
    pub fn new(left: u8, middle: u8, right: u8) -> (c: TileCompatability)
        ensures
            c.left == left,
            c.middle == middle,
            c.right == right,
    {
        TileCompatability { left, middle, right }
    }
}

impl PartialEq for TileCompatability {
    fn eq(&self, other: &Self) -> (r: bool) {
        let a: u32 = u32::from(*self);
        let b: u32 = u32::from(*other);
        a == b
    }
}

impl PartialEqSpecImpl for TileCompatability {
    open spec fn obeys_eq_spec() -> bool {
        true
    }

    open spec fn eq_spec(&self, other: &TileCompatability) -> bool {
        packed(*self) == packed(*other)
    }
}

impl From<u32> for TileCompatability {
    fn from(value: u32) -> (c: Self) {
        let left = ((value & 0xFF0000) >> 16) as u8;
        let middle = ((value & 0xFF00) >> 8) as u8;
        let right = (value & 0xFF) as u8;
        assert(left == ((value as int / 65536) % 256) as u8 && middle == ((value as int / 256)
            % 256) as u8 && right == (value as int % 256) as u8) by (bit_vector)
            requires
                left == ((value & 0xFF0000) >> 16) as u8,
                middle == ((value & 0xFF00) >> 8) as u8,
                right == (value & 0xFF) as u8,
        ;
        TileCompatability { left, middle, right }
    }
}

impl FromSpecImpl<u32> for TileCompatability {
    open spec fn obeys_from_spec() -> bool {
        true
    }

    open spec fn from_spec(value: u32) -> TileCompatability {
        unpacked(value)
    }
}

impl From<TileCompatability> for u32 {
    fn from(value: TileCompatability) -> (r: u32) {
        let l = value.left;
        let m = value.middle;
        let x = value.right;
        let r = ((l as u32) << 16u32) | ((m as u32) << 8u32) | (x as u32);
        assert(r as int == l as int * 65536 + m as int * 256 + x as int) by (bit_vector)
            requires
                r == ((l as u32) << 16u32) | ((m as u32) << 8u32) | (x as u32),
        ;
        r
    }
}

impl FromSpecImpl<TileCompatability> for u32 {
    open spec fn obeys_from_spec() -> bool {
        true
    }

    open spec fn from_spec(value: TileCompatability) -> u32 {
        packed(value) as u32
    }
}


/// A kind of tile, with the compatibility of each of its four sides when unrotated.
#[derive(Clone, Copy, Debug, PartialEq)]
pub struct TileData {
    pub tile_type_id: u32,
    // Compatibilities for wave function collapse
    pub northern_compatibility: TileCompatability,
    pub eastern_compatibility: TileCompatability,
    pub southern_compatibility: TileCompatability,
    pub western_compatibility: TileCompatability,
}

/// A tile placed in the dungeon: its kind and the rotation it was placed with.
#[derive(Clone, Copy, Debug)]
pub struct TileInstance<'data> {
    pub tile_data: &'data TileData,
    pub rotation: TileRotation,
}

#[derive(Clone, Copy, Debug, PartialEq, Eq, Structural)]
pub enum TileSide {
    North,
    East,
    South,
    West,
}

#[derive(Clone, Copy, Debug, PartialEq, Eq, Structural)]
pub enum TileRotation {
    Identity,  // 0 degrees of rotation
    Clockwise,  // 90 degrees of rotation
    Opposite,  // 180 degrees of rotation
    Counterclockwise,  // 270 degrees of rotation
}

#[derive(Clone, Copy, Debug, PartialEq, Eq, Structural)]
pub enum TileAdjacencyType {
    NorthSouth,
    EastWest,
    SouthNorth,
    WestEast,
}

/// Two tiles, each with a rotation, whose sides named by `adjacency` fit together.
#[derive(Debug)]
pub struct TileAdjacency<'a, 'b> {
    pub tile_a: &'a TileData,
    pub tile_a_rotation: TileRotation,
    pub tile_b: &'b TileData,
    pub tile_b_rotation: TileRotation,
    pub adjacency: TileAdjacencyType,
}

/// Position of a side, counted clockwise from north.
pub open spec fn side_index(side: TileSide) -> int {
    match side {
        TileSide::North => 0,
        TileSide::East => 1,
        TileSide::South => 2,
        TileSide::West => 3,
    }
}

/// The side at a clockwise position (taken modulo 4).
pub open spec fn side_at(index: int) -> TileSide {
    let i = index % 4;
    if i == 0 {
        TileSide::North
    } else if i == 1 {
        TileSide::East
    } else if i == 2 {
        TileSide::South
    } else {
        TileSide::West
    }
}

/// Number of clockwise quarter turns of a rotation.
pub open spec fn quarter_turns(rotation: TileRotation) -> int {
    match rotation {
        TileRotation::Identity => 0,
        TileRotation::Clockwise => 1,
        TileRotation::Opposite => 2,
        TileRotation::Counterclockwise => 3,
    }
}

/// The rotation by a number of clockwise quarter turns (taken modulo 4).
pub open spec fn rotation_of(turns: int) -> TileRotation {
    let t = turns % 4;
    if t == 0 {
        TileRotation::Identity
    } else if t == 1 {
        TileRotation::Clockwise
    } else if t == 2 {
        TileRotation::Opposite
    } else {
        TileRotation::Counterclockwise
    }
}

/// The compatibility that an unrotated tile shows on a side.
pub open spec fn side_compatibility(tile: TileData, side: TileSide) -> TileCompatability {
    match side {
        TileSide::North => tile.northern_compatibility,
        TileSide::East => tile.eastern_compatibility,
        TileSide::South => tile.southern_compatibility,
        TileSide::West => tile.western_compatibility,
    }
}

/// A tile turned clockwise by `rotation` shows on `side` what its unrotated form shows on
/// the side that lies `rotation` quarter turns counterclockwise of `side`.
pub open spec fn rotated_compatibility(
    tile: TileData,
    rotation: TileRotation,
    side: TileSide,
) -> TileCompatability {
    side_compatibility(tile, side_at(side_index(side) - quarter_turns(rotation) + 4))
}

/// The side of tile A and the side of tile B that an adjacency puts against each other.
pub open spec fn adjacency_sides(adjacency: TileAdjacencyType) -> (TileSide, TileSide) {
    match adjacency {
        TileAdjacencyType::NorthSouth => (TileSide::South, TileSide::North),
        TileAdjacencyType::EastWest => (TileSide::West, TileSide::East),
        TileAdjacencyType::SouthNorth => (TileSide::North, TileSide::South),
        TileAdjacencyType::WestEast => (TileSide::East, TileSide::West),
    }
}

/// Whether tile A and tile B, so rotated, fit together along `adjacency`.
pub open spec fn compatible(
    tile_a: TileData,
    tile_a_rotation: TileRotation,
    tile_b: TileData,
    tile_b_rotation: TileRotation,
    adjacency: TileAdjacencyType,
) -> bool {
    rotated_compatibility(tile_a, tile_a_rotation, adjacency_sides(adjacency).0)
        == rotated_compatibility(tile_b, tile_b_rotation, adjacency_sides(adjacency).1)
}

/// The rotations in the order in which they are tried.
pub open spec fn rotation_order(index: int) -> TileRotation {
    rotation_of(index)
}

/// The adjacencies in the order in which they are tried.
pub open spec fn adjacency_order(index: int) -> TileAdjacencyType {
    if index == 0 {
        TileAdjacencyType::NorthSouth
    } else if index == 1 {
        TileAdjacencyType::EastWest
    } else if index == 2 {
        TileAdjacencyType::SouthNorth
    } else {
        TileAdjacencyType::WestEast
    }
}

/// The first `n` of the sixteen (rotation of B, adjacency) candidates, rotation major,
/// kept where B so rotated fits against A along the adjacency.
pub open spec fn compatible_candidates(
    tile_a: TileData,
    tile_a_rotation: TileRotation,
    tile_b: TileData,
    n: nat,
) -> Seq<(TileRotation, TileAdjacencyType)>
    decreases n,
{
    if n == 0 {
        Seq::empty()
    } else {
        let k = n - 1;
        let candidate = (rotation_order(k / 4), adjacency_order(k % 4));
        let earlier = compatible_candidates(tile_a, tile_a_rotation, tile_b, (n - 1) as nat);
        if compatible(tile_a, tile_a_rotation, tile_b, candidate.0, candidate.1) {
            earlier.push(candidate)
        } else {
            earlier
        }
    }
}

impl TileData {
    /// Every way in which `potential_tile` can stand next to `fixed_tile`: each rotation of
    /// the potential tile and each adjacency along which the two fit.
    pub fn get_compatibilities<'a, 'b>(
        fixed_tile: &'a TileInstance,
        potential_tile: &'b TileData,
    ) -> (adjacencies: Vec<TileAdjacency<'a, 'b>>)
        ensures
            adjacencies@.len() == compatible_candidates(
                *fixed_tile.tile_data,
                fixed_tile.rotation,
                *potential_tile,
                16,
            ).len(),
            forall|i: int|
                #![trigger adjacencies@[i]]
                0 <= i < adjacencies@.len() ==> {
                    &&& *adjacencies@[i].tile_a == *fixed_tile.tile_data
                    &&& adjacencies@[i].tile_a_rotation == fixed_tile.rotation
                    &&& *adjacencies@[i].tile_b == *potential_tile
                    &&& (adjacencies@[i].tile_b_rotation, adjacencies@[i].adjacency)
                        == compatible_candidates(
                        *fixed_tile.tile_data,
                        fixed_tile.rotation,
                        *potential_tile,
                        16,
                    )[i]
                },
    {
        let rotations = [
            TileRotation::Identity,
            TileRotation::Clockwise,
            TileRotation::Opposite,
            TileRotation::Counterclockwise,
        ];
        let adjacency_types = [
            TileAdjacencyType::NorthSouth,
            TileAdjacencyType::EastWest,
            TileAdjacencyType::SouthNorth,
            TileAdjacencyType::WestEast,
        ];
        let ghost a = *fixed_tile.tile_data;
        let ghost ra = fixed_tile.rotation;
        let ghost b = *potential_tile;
        let mut adjacencies: Vec<TileAdjacency<'a, 'b>> = Vec::new();
        let mut r: usize = 0;
        while r < 4
            invariant
                0 <= r <= 4,
                rotations@ == seq![TileRotation::Identity, TileRotation::Clockwise,
                    TileRotation::Opposite, TileRotation::Counterclockwise],
                adjacency_types@ == seq![TileAdjacencyType::NorthSouth,
                    TileAdjacencyType::EastWest, TileAdjacencyType::SouthNorth,
                    TileAdjacencyType::WestEast],
                a == *fixed_tile.tile_data,
                ra == fixed_tile.rotation,
                b == *potential_tile,
                adjacencies@.len() == compatible_candidates(a, ra, b, (r * 4) as nat).len(),
                forall|i: int|
                    #![trigger adjacencies@[i]]
                    0 <= i < adjacencies@.len() ==> {
                        &&& *adjacencies@[i].tile_a == a
                        &&& adjacencies@[i].tile_a_rotation == ra
                        &&& *adjacencies@[i].tile_b == b
                        &&& (adjacencies@[i].tile_b_rotation, adjacencies@[i].adjacency)
                            == compatible_candidates(a, ra, b, (r * 4) as nat)[i]
                    },
            decreases 4 - r,
        {
            let potential_rotation = rotations[r];
            let mut j: usize = 0;
            while j < 4
                invariant
                    0 <= r < 4,
                    0 <= j <= 4,
                    potential_rotation == rotation_order(r as int),
                    adjacency_types@ == seq![TileAdjacencyType::NorthSouth,
                        TileAdjacencyType::EastWest, TileAdjacencyType::SouthNorth,
                        TileAdjacencyType::WestEast],
                    a == *fixed_tile.tile_data,
                    ra == fixed_tile.rotation,
                    b == *potential_tile,
                    adjacencies@.len() == compatible_candidates(a, ra, b, (r * 4 + j) as nat).len(),
                    forall|i: int|
                        #![trigger adjacencies@[i]]
                        0 <= i < adjacencies@.len() ==> {
                            &&& *adjacencies@[i].tile_a == a
                            &&& adjacencies@[i].tile_a_rotation == ra
                            &&& *adjacencies@[i].tile_b == b
                            &&& (adjacencies@[i].tile_b_rotation, adjacencies@[i].adjacency)
                                == compatible_candidates(a, ra, b, (r * 4 + j) as nat)[i]
                        },
                decreases 4 - j,
            {
                let adjacency_type = adjacency_types[j];
                assert(adjacency_type == adjacency_order(j as int));
                let k = r * 4 + j;
                assert(k / 4 == r as int && k % 4 == j as int);
                if TileData::is_compatible(
                    fixed_tile.tile_data,
                    fixed_tile.rotation,
                    potential_tile,
                    potential_rotation,
                    adjacency_type,
                ) {
                    adjacencies.push(
                        TileAdjacency {
                            tile_a: fixed_tile.tile_data,
                            tile_a_rotation: fixed_tile.rotation,
                            tile_b: potential_tile,
                            tile_b_rotation: potential_rotation,
                            adjacency: adjacency_type,
                        },
                    );
                }
                j = j + 1;
            }
            r = r + 1;
        }
        adjacencies
    }

    /// Whether `tile_a` and `tile_b`, so rotated, fit together along `tile_adjacency_type`.
    pub fn is_compatible(
        tile_a: &TileData,
        tile_a_rotation: TileRotation,
        tile_b: &TileData,
        tile_b_rotation: TileRotation,
        tile_adjacency_type: TileAdjacencyType,
    ) -> (fits: bool)
        ensures
            fits == compatible(*tile_a, tile_a_rotation, *tile_b, tile_b_rotation, tile_adjacency_type),
    {
        let (a_compat, b_compat) = match tile_adjacency_type {
            TileAdjacencyType::NorthSouth => (
                TileData::get_compatibility(tile_a, tile_a_rotation, TileSide::South),
                TileData::get_compatibility(tile_b, tile_b_rotation, TileSide::North),
            ),
            TileAdjacencyType::EastWest => (
                TileData::get_compatibility(tile_a, tile_a_rotation, TileSide::West),
                TileData::get_compatibility(tile_b, tile_b_rotation, TileSide::East),
            ),
            TileAdjacencyType::SouthNorth => (
                TileData::get_compatibility(tile_a, tile_a_rotation, TileSide::North),
                TileData::get_compatibility(tile_b, tile_b_rotation, TileSide::South),
            ),
            TileAdjacencyType::WestEast => (
                TileData::get_compatibility(tile_a, tile_a_rotation, TileSide::East),
                TileData::get_compatibility(tile_b, tile_b_rotation, TileSide::West),
            ),
        };
        let fits = a_compat == b_compat;
        proof {
            lemma_packed_equal_iff_equal(a_compat, b_compat);
        }
        fits
    }

    /// The compatibility that `tile`, turned by `rotation`, shows on `side`.
    pub fn get_compatibility(tile: &TileData, rotation: TileRotation, side: TileSide) -> (c:
        TileCompatability)
        ensures
            c == rotated_compatibility(*tile, rotation, side),
    {
        match (rotation, side) {
            (TileRotation::Identity, TileSide::North) => tile.northern_compatibility,
            (TileRotation::Identity, TileSide::East) => tile.eastern_compatibility,
            (TileRotation::Identity, TileSide::South) => tile.southern_compatibility,
            (TileRotation::Identity, TileSide::West) => tile.western_compatibility,
            (TileRotation::Clockwise, TileSide::North) => tile.western_compatibility,
            (TileRotation::Clockwise, TileSide::East) => tile.northern_compatibility,
            (TileRotation::Clockwise, TileSide::South) => tile.eastern_compatibility,
            (TileRotation::Clockwise, TileSide::West) => tile.southern_compatibility,
            (TileRotation::Opposite, TileSide::North) => tile.southern_compatibility,
            (TileRotation::Opposite, TileSide::East) => tile.western_compatibility,
            (TileRotation::Opposite, TileSide::South) => tile.northern_compatibility,
            (TileRotation::Opposite, TileSide::West) => tile.eastern_compatibility,
            (TileRotation::Counterclockwise, TileSide::North) => tile.eastern_compatibility,
            (TileRotation::Counterclockwise, TileSide::East) => tile.southern_compatibility,
            (TileRotation::Counterclockwise, TileSide::South) => tile.western_compatibility,
            (TileRotation::Counterclockwise, TileSide::West) => tile.northern_compatibility,
        }
    }
}

/// Two compatibilities pack to the same `u32` exactly when they are equal.
pub proof fn lemma_packed_equal_iff_equal(a: TileCompatability, b: TileCompatability)
    ensures
        (packed(a) == packed(b)) <==> (a == b),
{
}

/// Unpacking what a compatibility packs to gives the compatibility back.
pub proof fn lemma_compatibility_round_trip(c: TileCompatability)
    ensures
        0 <= packed(c) < 16777216,
        unpacked(packed(c) as u32) == c,
{
    let v = packed(c);
    assert(v / 65536 == c.left as int) by (nonlinear_arith)
        requires
            v == c.left as int * 65536 + c.middle as int * 256 + c.right as int,
            0 <= c.left < 256,
            0 <= c.middle < 256,
            0 <= c.right < 256,
    ;
    assert(v / 256 == c.left as int * 256 + c.middle as int) by (nonlinear_arith)
        requires
            v == c.left as int * 65536 + c.middle as int * 256 + c.right as int,
            0 <= c.middle < 256,
            0 <= c.right < 256,
    ;
    assert((c.left as int * 256 + c.middle as int) % 256 == c.middle as int) by (nonlinear_arith)
        requires
            0 <= c.middle < 256,
            0 <= c.left,
    ;
    assert(v % 256 == c.right as int) by (nonlinear_arith)
        requires
            v == c.left as int * 65536 + c.middle as int * 256 + c.right as int,
            0 <= c.right < 256,
            0 <= c.left,
            0 <= c.middle,
    ;
}

/// Packing what a `u32` unpacks to keeps its low 24 bits and drops the rest.
pub proof fn lemma_value_round_trip(value: u32)
    ensures
        packed(unpacked(value)) == value as int % 16777216,
{
    let v = value as int;
    let l = (v / 65536) % 256;
    let m = (v / 256) % 256;
    let r = v % 256;
    assert(l * 65536 + m * 256 + r == v % 16777216) by (nonlinear_arith)
        requires
            v >= 0,
            l == (v / 65536) % 256,
            m == (v / 256) % 256,
            r == v % 256,
    ;
}

/// The adjacency seen from the other tile: if B stands south of A, then A stands north of B.
pub open spec fn reversed_adjacency(adjacency: TileAdjacencyType) -> TileAdjacencyType {
    match adjacency {
        TileAdjacencyType::NorthSouth => TileAdjacencyType::SouthNorth,
        TileAdjacencyType::EastWest => TileAdjacencyType::WestEast,
        TileAdjacencyType::SouthNorth => TileAdjacencyType::NorthSouth,
        TileAdjacencyType::WestEast => TileAdjacencyType::EastWest,
    }
}

/// The adjacency after the pair of tiles is turned a quarter clockwise.
pub open spec fn turned_adjacency(adjacency: TileAdjacencyType) -> TileAdjacencyType {
    match adjacency {
        TileAdjacencyType::NorthSouth => TileAdjacencyType::EastWest,
        TileAdjacencyType::EastWest => TileAdjacencyType::SouthNorth,
        TileAdjacencyType::SouthNorth => TileAdjacencyType::WestEast,
        TileAdjacencyType::WestEast => TileAdjacencyType::NorthSouth,
    }
}

/// Compatibility does not depend on which of the two tiles is called A: A fits B along an
/// adjacency exactly when B fits A along the reversed adjacency.
pub proof fn lemma_compatibility_is_symmetric(
    tile_a: TileData,
    tile_a_rotation: TileRotation,
    tile_b: TileData,
    tile_b_rotation: TileRotation,
    adjacency: TileAdjacencyType,
)
    ensures
        compatible(tile_a, tile_a_rotation, tile_b, tile_b_rotation, adjacency) == compatible(
            tile_b,
            tile_b_rotation,
            tile_a,
            tile_a_rotation,
            reversed_adjacency(adjacency),
        ),
{
}

/// Turning a whole arrangement a quarter clockwise keeps it valid: two tiles that fit keep
/// fitting when both are turned one more quarter and the adjacency turns with them.
pub proof fn lemma_compatibility_is_rotation_invariant(
    tile_a: TileData,
    tile_a_rotation: TileRotation,
    tile_b: TileData,
    tile_b_rotation: TileRotation,
    adjacency: TileAdjacencyType,
)
    ensures
        compatible(tile_a, tile_a_rotation, tile_b, tile_b_rotation, adjacency) == compatible(
            tile_a,
            rotation_of(quarter_turns(tile_a_rotation) + 1),
            tile_b,
            rotation_of(quarter_turns(tile_b_rotation) + 1),
            turned_adjacency(adjacency),
        ),
{
}

/// Position of an adjacency in the order in which they are tried.
pub open spec fn adjacency_index(adjacency: TileAdjacencyType) -> int {
    match adjacency {
        TileAdjacencyType::NorthSouth => 0,
        TileAdjacencyType::EastWest => 1,
        TileAdjacencyType::SouthNorth => 2,
        TileAdjacencyType::WestEast => 3,
    }
}

/// Position of a (rotation, adjacency) candidate in the order in which they are tried.
pub open spec fn candidate_key(candidate: (TileRotation, TileAdjacencyType)) -> int {
    quarter_turns(candidate.0) * 4 + adjacency_index(candidate.1)
}

proof fn lemma_candidate_at_key(candidate: (TileRotation, TileAdjacencyType))
    ensures
        0 <= candidate_key(candidate) < 16,
        candidate == (
            rotation_order(candidate_key(candidate) / 4),
            adjacency_order(candidate_key(candidate) % 4),
        ),
{
}

proof fn lemma_key_of_candidate(k: int)
    requires
        0 <= k < 16,
    ensures
        candidate_key((rotation_order(k / 4), adjacency_order(k % 4))) == k,
{
}

proof fn lemma_candidates_sorted(tile_a: TileData, tile_a_rotation: TileRotation, tile_b: TileData, n: nat)
    requires
        n <= 16,
    ensures
        forall|i: int|
            #![trigger compatible_candidates(tile_a, tile_a_rotation, tile_b, n)[i]]
            0 <= i < compatible_candidates(tile_a, tile_a_rotation, tile_b, n).len() ==> {
                &&& 0 <= candidate_key(compatible_candidates(tile_a, tile_a_rotation, tile_b, n)[i]) < n
                &&& compatible(
                    tile_a,
                    tile_a_rotation,
                    tile_b,
                    compatible_candidates(tile_a, tile_a_rotation, tile_b, n)[i].0,
                    compatible_candidates(tile_a, tile_a_rotation, tile_b, n)[i].1,
                )
            },
        forall|i: int, j: int|
            0 <= i < j < compatible_candidates(tile_a, tile_a_rotation, tile_b, n).len() ==> candidate_key(
                #[trigger] compatible_candidates(tile_a, tile_a_rotation, tile_b, n)[i],
            ) < candidate_key(#[trigger] compatible_candidates(tile_a, tile_a_rotation, tile_b, n)[j]),
    decreases n,
{
    if n > 0 {
        lemma_candidates_sorted(tile_a, tile_a_rotation, tile_b, (n - 1) as nat);
        lemma_key_of_candidate(n - 1);
        let k = n - 1;
        let next = (rotation_order(k / 4), adjacency_order(k % 4));
        let earlier = compatible_candidates(tile_a, tile_a_rotation, tile_b, (n - 1) as nat);
        if compatible(tile_a, tile_a_rotation, tile_b, next.0, next.1) {
            let current = earlier.push(next);
            assert(compatible_candidates(tile_a, tile_a_rotation, tile_b, n) == current);
            assert forall|i: int| 0 <= i < current.len() implies {
                &&& 0 <= candidate_key(current[i]) < n
                &&& compatible(tile_a, tile_a_rotation, tile_b, current[i].0, current[i].1)
            } by {
                if i < earlier.len() {
                    assert(current[i] == earlier[i]);
                }
            }
            assert forall|i: int, j: int| 0 <= i < j < current.len() implies candidate_key(current[i])
                < candidate_key(current[j]) by {
                assert(current[i] == earlier[i]);
                if j < earlier.len() {
                    assert(current[j] == earlier[j]);
                }
            }
        } else {
            assert(compatible_candidates(tile_a, tile_a_rotation, tile_b, n) == earlier);
        }
    }
}

proof fn lemma_candidates_complete(
    tile_a: TileData,
    tile_a_rotation: TileRotation,
    tile_b: TileData,
    candidate: (TileRotation, TileAdjacencyType),
    n: nat,
)
    requires
        n <= 16,
        candidate_key(candidate) < n,
        compatible(tile_a, tile_a_rotation, tile_b, candidate.0, candidate.1),
    ensures
        compatible_candidates(tile_a, tile_a_rotation, tile_b, n).contains(candidate),
    decreases n,
{
    lemma_candidate_at_key(candidate);
    let earlier = compatible_candidates(tile_a, tile_a_rotation, tile_b, (n - 1) as nat);
    if candidate_key(candidate) == n - 1 {
        assert(compatible_candidates(tile_a, tile_a_rotation, tile_b, n) == earlier.push(candidate));
        assert(earlier.push(candidate)[earlier.len() as int] == candidate);
    } else {
        lemma_candidates_complete(tile_a, tile_a_rotation, tile_b, candidate, (n - 1) as nat);
        let i = choose|i: int| 0 <= i < earlier.len() && earlier[i] == candidate;
        let k = n - 1;
        let next = (rotation_order(k / 4), adjacency_order(k % 4));
        if compatible(tile_a, tile_a_rotation, tile_b, next.0, next.1) {
            assert(earlier.push(next)[i] == candidate);
        }
    }
}

/// `get_compatibilities` finds every fitting placement and no other, each once: a rotation
/// of the potential tile and an adjacency are listed exactly when the tiles fit so.
pub proof fn lemma_compatibilities_are_exactly_the_fitting_placements(
    tile_a: TileData,
    tile_a_rotation: TileRotation,
    tile_b: TileData,
    tile_b_rotation: TileRotation,
    adjacency: TileAdjacencyType,
)
    ensures
        compatible_candidates(tile_a, tile_a_rotation, tile_b, 16).contains(
            (tile_b_rotation, adjacency),
        ) <==> compatible(tile_a, tile_a_rotation, tile_b, tile_b_rotation, adjacency),
        compatible_candidates(tile_a, tile_a_rotation, tile_b, 16).no_duplicates(),
{
    let found = compatible_candidates(tile_a, tile_a_rotation, tile_b, 16);
    let candidate = (tile_b_rotation, adjacency);
    lemma_candidates_sorted(tile_a, tile_a_rotation, tile_b, 16);
    lemma_candidate_at_key(candidate);
    if compatible(tile_a, tile_a_rotation, tile_b, tile_b_rotation, adjacency) {
        lemma_candidates_complete(tile_a, tile_a_rotation, tile_b, candidate, 16);
    }
    if found.contains(candidate) {
        let i = choose|i: int| 0 <= i < found.len() && found[i] == candidate;
        assert(compatible(tile_a, tile_a_rotation, tile_b, found[i].0, found[i].1));
    }
    assert forall|i: int, j: int| 0 <= i < found.len() && 0 <= j < found.len() && i != j implies found[i]
        != found[j] by {
        if i < j {
            assert(candidate_key(found[i]) < candidate_key(found[j]));
        } else {
            assert(candidate_key(found[j]) < candidate_key(found[i]));
        }
    }
}

} // verus!
