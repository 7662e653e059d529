//! Random dungeon layouts: a dungeon is a few rooms, a room a scattering of floor tiles on a
//! grid.

use crate::random::{choose_in_range, gen_range_inclusive, gen_ratio, random_u32};
use vstd::prelude::*;

verus! {

/// Side of a grid cell, in world units.
pub const TILE_SIZE: u16 = 64;

/// A floor tile of a room: its kind and where it stands.
///
/// The position is the translation of the tile in world units, which is its grid cell times
/// [`TILE_SIZE`]; the depth of every floor tile is the same and is left to whoever renders it.
#[derive(Clone, Copy, Debug, PartialEq, Eq, Structural)]
pub struct Tile {
    pub tile_type_id: u32,
    pub translation_x: u16,
    pub translation_y: u16,
}

#[derive(Debug)]
pub struct Room {
    pub tiles: Vec<Tile>,
    pub decorations: Vec<Tile>,
}

#[derive(Debug)]
pub struct Dungeon {
    pub rooms: Vec<Room>,
}

pub struct DungeonGenerator {
    pub seed: u128,
}

pub struct DungeonGenerationSettings {
    pub min_x_size: u16,
    pub max_x_size: u16,
    pub min_y_size: u16,
    pub max_y_size: u16,
    pub min_rooms: u8,
    pub max_rooms: u8,
}

/// The seed made of random words: each step shifts what was gathered eight bits up and ors
/// the next word in.
pub open spec fn seed_from_words(words: Seq<u32>) -> u128
    decreases words.len(),
{
    if words.len() == 0 {
        0
    } else {
        (seed_from_words(words.drop_last()) << 8u128) | (words.last() as u128)
    }
}

/// Settings from which a room can be generated: the size ranges are not empty, and a grid
/// cell's translation (its index times [`TILE_SIZE`]) fits in a `u16`.
pub open spec fn room_settings_are_valid(settings: DungeonGenerationSettings) -> bool {
    &&& settings.min_x_size <= settings.max_x_size <= 1024
    &&& settings.min_y_size <= settings.max_y_size <= 1024
}

/// Settings from which a dungeon can be generated.
pub open spec fn settings_are_valid(settings: DungeonGenerationSettings) -> bool {
    &&& room_settings_are_valid(settings)
    &&& settings.min_rooms <= settings.max_rooms
}

/// Tile `a` comes before tile `b` in row-major order of their cells.
pub open spec fn comes_before(a: Tile, b: Tile) -> bool {
    a.translation_y < b.translation_y || (a.translation_y == b.translation_y && a.translation_x
        < b.translation_x)
}

/// The tiles of a room that is `x_size` cells wide and `y_size` cells high: each stands on a
/// cell of the grid, is of kind 0 or 1, and the tiles come in row-major order of their cells,
/// at most one per cell.
pub open spec fn tiles_laid_out(tiles: Seq<Tile>, x_size: int, y_size: int) -> bool {
    &&& forall|i: int|
        #![trigger tiles[i]]
        0 <= i < tiles.len() ==> {
            &&& tiles[i].tile_type_id <= 1
            &&& tiles[i].translation_x % 64 == 0
            &&& tiles[i].translation_y % 64 == 0
            &&& tiles[i].translation_x < x_size * 64
            &&& tiles[i].translation_y < y_size * 64
        }
    &&& forall|i: int, j: int|
        0 <= i < j < tiles.len() ==> comes_before(#[trigger] tiles[i], #[trigger] tiles[j])
}

/// A room generated with these settings: a grid whose sizes lie in the settings' ranges,
/// with tiles laid out on it and no decorations.
pub open spec fn room_fits(room: Room, settings: DungeonGenerationSettings) -> bool {
    &&& room.decorations@.len() == 0
    &&& exists|x_size: int, y_size: int|
        settings.min_x_size <= x_size <= settings.max_x_size && settings.min_y_size <= y_size
            <= settings.max_y_size && #[trigger] tiles_laid_out(room.tiles@, x_size, y_size)
}

impl Default for DungeonGenerator {
    fn default() -> (generator: Self)
        ensures
            exists|words: Seq<u32>| words.len() == 4 && generator.seed == seed_from_words(words),
    {
        let mut words: Vec<u32> = Vec::new();
        words.push(random_u32());
        words.push(random_u32());
        words.push(random_u32());
        words.push(random_u32());
        let seed = DungeonGenerator::seed_from(&words);
        DungeonGenerator { seed }
    }
}

impl Default for DungeonGenerationSettings {
    fn default() -> (settings: Self)
        ensures
            settings.min_x_size == 30,
            settings.max_x_size == 50,
            settings.min_y_size == 30,
            settings.max_y_size == 50,
            settings.min_rooms == 1,
            settings.max_rooms == 2,
    {
        DungeonGenerationSettings {
            min_x_size: 30,
            max_x_size: 50,
            min_y_size: 30,
            max_y_size: 50,
            min_rooms: 1,
            max_rooms: 2,
        }
    }
}

impl DungeonGenerator {
    /// Folds random words into a seed, as [`seed_from_words`] states.
    pub fn seed_from(words: &Vec<u32>) -> (seed: u128)
        ensures
            seed == seed_from_words(words@),
    {
        let mut seed: u128 = 0;
        let mut i: usize = 0;
        while i < words.len()
            invariant
                0 <= i <= words@.len(),
                seed == seed_from_words(words@.take(i as int)),
            decreases words@.len() - i,
        {
            assert(words@.take(i as int + 1).drop_last() == words@.take(i as int));
            seed = (seed << 8u128) | (words[i] as u128);
            i = i + 1;
        }
        assert(words@.take(words@.len() as int) == words@);
        seed
    }

    /// Generates a dungeon of between `min_rooms` and `max_rooms` rooms.
    pub fn generate(&self, settings: &DungeonGenerationSettings) -> (dungeon: Dungeon)
        requires
            settings_are_valid(*settings),
        ensures
            settings.min_rooms <= dungeon.rooms@.len() <= settings.max_rooms,
            forall|i: int|
                0 <= i < dungeon.rooms@.len() ==> room_fits(#[trigger] dungeon.rooms@[i], *settings),
    {
        let chosen = choose_in_range(settings.min_rooms as usize, settings.max_rooms as usize + 1);
        let num_rooms = match chosen {
            Some(n) => n,
            None => 0,
        };
        let mut rooms: Vec<Room> = Vec::new();
        let mut i: usize = 0;
        while i < num_rooms
            invariant
                room_settings_are_valid(*settings),
                0 <= i <= num_rooms,
                rooms@.len() == i,
                forall|j: int| 0 <= j < rooms@.len() ==> room_fits(#[trigger] rooms@[j], *settings),
            decreases num_rooms - i,
        {
            rooms.push(self.generate_room(settings));
            i = i + 1;
        }
        Dungeon { rooms }
    }

    /// Generates a room of random size whose cells each hold a floor tile with even odds.
    pub fn generate_room(&self, settings: &DungeonGenerationSettings) -> (room: Room)
        requires
            room_settings_are_valid(*settings),
        ensures
            room_fits(room, *settings),
    {
        let x_size = match choose_in_range(
            settings.min_x_size as usize,
            settings.max_x_size as usize + 1,
        ) {
            Some(n) => n as u16,
            None => settings.min_x_size,
        };
        let y_size = match choose_in_range(
            settings.min_y_size as usize,
            settings.max_y_size as usize + 1,
        ) {
            Some(n) => n as u16,
            None => settings.min_y_size,
        };
        let mut tiles: Vec<Tile> = Vec::new();
        // Construct our initial random smattering of tiles
        let mut y: u16 = 0;
        while y < y_size
            invariant
                0 <= y <= y_size <= 1024,
                0 <= x_size <= 1024,
                tiles_laid_out(tiles@, x_size as int, y_size as int),
                forall|i: int| 0 <= i < tiles@.len() ==> #[trigger] tiles@[i].translation_y < y * 64,
            decreases y_size - y,
        {
            let mut x: u16 = 0;
            while x < x_size
                invariant
                    0 <= y < y_size <= 1024,
                    0 <= x <= x_size <= 1024,
                    tiles_laid_out(tiles@, x_size as int, y_size as int),
                    forall|i: int|
                        0 <= i < tiles@.len() ==> (#[trigger] tiles@[i]).translation_y < y * 64 || (
                        tiles@[i].translation_y == y * 64 && tiles@[i].translation_x < x * 64),
                decreases x_size - x,
            {
                let skip = gen_ratio(1, 2);
                if !skip {
                    let tile = Tile {
                        tile_type_id: gen_range_inclusive(0, 1),
                        translation_x: x * TILE_SIZE,
                        translation_y: y * TILE_SIZE,
                    };
                    let ghost before = tiles@;
                    tiles.push(tile);
                    assert forall|i: int, j: int|
                        0 <= i < j < tiles@.len() implies comes_before(tiles@[i], tiles@[j]) by {
                        if j < before.len() {
                            assert(tiles@[i] == before[i] && tiles@[j] == before[j]);
                        } else {
                            assert(tiles@[i] == before[i]);
                        }
                    }
                }
                x = x + 1;
            }
            y = y + 1;
        }
        // Do another pass to ensure we can traverse between all tiles
        let room = Room { tiles, decorations: Vec::new() };
        assert(tiles_laid_out(room.tiles@, x_size as int, y_size as int));
        room
    }

    /// The step that will let rooms connect their tiles; it does nothing yet.
    pub fn wave_function_collapse(&self) {
    }
}

} // verus!
