//! Wave function collapse over a square of cells: each cell starts able to hold any of the
//! given tiles, and the cell with the fewest candidates left is collapsed to one tile, placed
//! with a random rotation, until no cell has a choice left.

use crate::random::choose_in_range;
use crate::tile::{TileData, TileInstance, TileRotation, rotation_of};
use vstd::prelude::*;

verus! {

/// Number of cells in a row of the square.
pub const TILE_WIDTH: usize = 5;

/// Number of rows of the square.
pub const TILE_HEIGHT: usize = 5;

/// Number of cells that still have more than one candidate.
pub open spec fn open_cells<T>(domain: Seq<Vec<T>>) -> nat
    decreases domain.len(),
{
    if domain.len() == 0 {
        0
    } else {
        open_cells(domain.drop_last()) + if domain.last()@.len() > 1 {
            1nat
        } else {
            0nat
        }
    }
}

/// Cell `index` is the first among the cells with the fewest candidates, counting only cells
/// that still have more than one.
pub open spec fn is_lowest_entropy<T>(domain: Seq<Vec<T>>, index: int) -> bool {
    &&& 0 <= index < domain.len()
    &&& domain[index]@.len() > 1
    &&& forall|j: int|
        0 <= j < domain.len() && domain[j]@.len() > 1 ==> domain[index]@.len() <= (
        #[trigger] domain[j])@.len()
    &&& forall|j: int|
        0 <= j < index && domain[j]@.len() > 1 ==> domain[index]@.len() < (
        #[trigger] domain[j])@.len()
}

proof fn lemma_open_cells_bounds<T>(domain: Seq<Vec<T>>)
    ensures
        open_cells(domain) <= domain.len(),
        open_cells(domain) == 0 <==> forall|j: int| 0 <= j < domain.len() ==> (#[trigger] domain[j])@.len() <= 1,
    decreases domain.len(),
{
    if domain.len() > 0 {
        lemma_open_cells_bounds(domain.drop_last());
        assert forall|j: int| 0 <= j < domain.len() - 1 implies domain.drop_last()[j] == domain[j] by {}
        if open_cells(domain) == 0 {
            assert forall|j: int| 0 <= j < domain.len() implies (#[trigger] domain[j])@.len() <= 1 by {
                if j < domain.len() - 1 {
                    assert(domain.drop_last()[j] == domain[j]);
                }
            }
        }
    }
}

proof fn lemma_open_cells_after_collapse<T>(domain: Seq<Vec<T>>, index: int, cell: Vec<T>)
    requires
        0 <= index < domain.len(),
        domain[index]@.len() > 1,
        cell@.len() == 1,
    ensures
        open_cells(domain.update(index, cell)) + 1 == open_cells(domain),
    decreases domain.len(),
{
    let updated = domain.update(index, cell);
    if index == domain.len() - 1 {
        assert(updated.drop_last() == domain.drop_last());
    } else {
        lemma_open_cells_after_collapse(domain.drop_last(), index, cell);
        assert(updated.drop_last() == domain.drop_last().update(index, cell));
    }
}

/// Whether some cell still has a choice between several tiles.
pub fn can_further_collapse<T>(domain: &Vec<Vec<T>>) -> (open: bool)
    ensures
        open == exists|i: int| 0 <= i < domain@.len() && (#[trigger] domain@[i])@.len() > 1,
{
    let mut i: usize = 0;
    while i < domain.len()
        invariant
            0 <= i <= domain@.len(),
            forall|j: int| 0 <= j < i ==> (#[trigger] domain@[j])@.len() <= 1,
        decreases domain@.len() - i,
    {
        if domain[i].len() > 1 {
            return true;
        }
        i = i + 1;
    }
    false
}

/// The first of the cells with the fewest candidates among those with more than one, if any.
pub fn lowest_entropy_idx<T>(domain: &Vec<Vec<T>>) -> (index: Option<usize>)
    ensures
        index is None <==> forall|j: int| 0 <= j < domain@.len() ==> (#[trigger] domain@[j])@.len() <= 1,
        index matches Some(i) ==> is_lowest_entropy(domain@, i as int),
{
    let mut best: Option<usize> = None;
    let mut i: usize = 0;
    while i < domain.len()
        invariant
            0 <= i <= domain@.len(),
            best is None <==> forall|j: int| 0 <= j < i ==> (#[trigger] domain@[j])@.len() <= 1,
            best matches Some(b) ==> {
                &&& b < i
                &&& domain@[b as int]@.len() > 1
                &&& forall|j: int|
                    0 <= j < i && domain@[j]@.len() > 1 ==> domain@[b as int]@.len() <= (
                    #[trigger] domain@[j])@.len()
                &&& forall|j: int|
                    0 <= j < b && domain@[j]@.len() > 1 ==> domain@[b as int]@.len() < (
                    #[trigger] domain@[j])@.len()
            },
        decreases domain@.len() - i,
    {
        let len = domain[i].len();
        if len > 1 {
            match best {
                None => {
                    best = Some(i);
                },
                Some(b) => {
                    if len < domain[b].len() {
                        best = Some(i);
                    }
                },
            }
        }
        i = i + 1;
    }
    best
}

/// The rotation a number of quarter turns gives, for 0 to 3 turns.
pub fn rotation_from_quarter_turns(turns: usize) -> (rotation: TileRotation)
    requires
        turns < 4,
    ensures
        rotation == rotation_of(turns as int),
{
    if turns == 0 {
        TileRotation::Identity
    } else if turns == 1 {
        TileRotation::Clockwise
    } else if turns == 2 {
        TileRotation::Opposite
    } else {
        TileRotation::Counterclockwise
    }
}

/// Collapses the cell of lowest entropy to one of its candidates, chosen at random, and
/// places that tile with a random rotation. Returns the cell and the placed tile, or `None`
/// when no cell has a choice left, in which case nothing changes.
pub fn collapse<'a>(domain: &mut Vec<Vec<&'a TileData>>) -> (placed: Option<(usize, TileInstance<'a>)>)
    ensures
        placed is None <==> forall|j: int|
            0 <= j < old(domain)@.len() ==> (#[trigger] old(domain)@[j])@.len() <= 1,
        placed is None ==> final(domain)@ == old(domain)@,
        placed matches Some((index, instance)) ==> {
            &&& is_lowest_entropy(old(domain)@, index as int)
            &&& old(domain)@[index as int]@.contains(instance.tile_data)
            &&& final(domain)@.len() == old(domain)@.len()
            &&& final(domain)@[index as int]@ == seq![instance.tile_data]
            &&& forall|j: int|
                0 <= j < old(domain)@.len() && j != index ==> #[trigger] final(domain)@[j]
                    == old(domain)@[j]
        },
{
    // Get the lowest entropy tile spot in our domain
    let lowest = lowest_entropy_idx(domain);
    let index = match lowest {
        Some(i) => i,
        None => {
            return None;
        },
    };
    // Collapse the entropy to 1 by picking a random tile
    let count = domain[index].len();
    let position = match choose_in_range(0, count) {
        Some(p) => p,
        None => 0,
    };
    let chosen_tile: &'a TileData = domain[index][position];
    let collapsed = vec![chosen_tile];
    domain.set(index, collapsed);
    // "Fix" that tile by assigning it a random rotation
    let turns = match choose_in_range(0, 4) {
        Some(t) => t,
        None => 0,
    };
    let rotation = rotation_from_quarter_turns(turns);
    let fixed_tile = TileInstance { tile_data: chosen_tile, rotation };
    proof {
        assert(old(domain)@[index as int]@[position as int] == chosen_tile);
    }
    Some((index, fixed_tile))
}

/// Whether `tile` is one of `tiles`.
pub open spec fn is_one_of(tile: TileData, tiles: Seq<TileData>) -> bool {
    exists|j: int| 0 <= j < tiles.len() && tiles[j] == tile
}

/// Runs wave function collapse on a 5 by 5 square over `tiles` and gives the placed tile of
/// each cell, in row-major order. With fewer than two tiles no cell has a choice to make,
/// nothing is placed, and the result is empty.
pub fn wfc<'a>(tiles: &'a Vec<TileData>) -> (instances: Vec<TileInstance<'a>>)
    ensures
        tiles@.len() >= 2 ==> instances@.len() == TILE_WIDTH * TILE_HEIGHT,
        tiles@.len() < 2 ==> instances@.len() == 0,
        forall|i: int|
            0 <= i < instances@.len() ==> is_one_of(*(#[trigger] instances@[i]).tile_data, tiles@),
{
    let cells = TILE_WIDTH * TILE_HEIGHT;
    let ghost n = tiles@.len();
    let mut domain: Vec<Vec<&'a TileData>> = Vec::new();
    let mut placed: Vec<Option<TileInstance<'a>>> = Vec::new();
    let mut c: usize = 0;
    while c < cells
        invariant
            cells == 25,
            0 <= c <= cells,
            n == tiles@.len(),
            domain@.len() == c,
            placed@.len() == c,
            forall|i: int|
                0 <= i < c ==> (#[trigger] domain@[i])@.len() == n && placed@[i] is None,
            forall|i: int, k: int|
                0 <= i < c && 0 <= k < domain@[i]@.len() ==> is_one_of(
                    *(#[trigger] domain@[i]@[k]),
                    tiles@,
                ),
        decreases cells - c,
    {
        let mut options: Vec<&'a TileData> = Vec::new();
        let mut t: usize = 0;
        while t < tiles.len()
            invariant
                0 <= t <= tiles@.len(),
                options@.len() == t,
                forall|k: int| 0 <= k < t ==> *(#[trigger] options@[k]) == tiles@[k],
            decreases tiles@.len() - t,
        {
            options.push(&tiles[t]);
            t = t + 1;
        }
        proof {
            assert forall|k: int| 0 <= k < options@.len() implies is_one_of(
                *(#[trigger] options@[k]),
                tiles@,
            ) by {
                assert(*options@[k] == tiles@[k]);
            }
        }
        domain.push(options);
        placed.push(None);
        c = c + 1;
    }
    proof {
        lemma_open_cells_bounds(domain@);
        assert forall|i: int| 0 <= i < cells implies (#[trigger] placed@[i]) is None by {
            assert(domain@[i]@.len() == n);
        }
    }
    loop
        invariant
            domain@.len() == cells,
            placed@.len() == cells,
            n == tiles@.len(),
            n < 2 ==> forall|i: int| 0 <= i < cells ==> (#[trigger] placed@[i]) is None,
            open_cells(domain@) <= cells,
            forall|i: int|
                0 <= i < cells ==> ((#[trigger] domain@[i])@.len() == n && placed@[i] is None) || (
                domain@[i]@.len() == 1 && placed@[i] is Some),
            forall|i: int, k: int|
                0 <= i < cells && 0 <= k < domain@[i]@.len() ==> is_one_of(
                    *(#[trigger] domain@[i]@[k]),
                    tiles@,
                ),
            forall|i: int|
                0 <= i < cells ==> (#[trigger] placed@[i] matches Some(instance) ==> is_one_of(
                    *instance.tile_data,
                    tiles@,
                )),
        ensures
            forall|j: int| 0 <= j < cells ==> (#[trigger] domain@[j])@.len() <= 1,
        decreases open_cells(domain@),
    {
        if !can_further_collapse(&domain) {
            break ;
        }
        let ghost before = domain@;
        let step = collapse(&mut domain);
        match step {
            Some((index, instance)) => {
                proof {
                    assert(before[index as int]@.len() > 1);
                    assert(domain@ == before.update(index as int, domain@[index as int]));
                    lemma_open_cells_after_collapse(before, index as int, domain@[index as int]);
                    assert(before[index as int]@.contains(instance.tile_data));
                    let k = choose|k: int| 0 <= k < before[index as int]@.len() && before[index as int]@[k] == instance.tile_data;
                    assert(is_one_of(*before[index as int]@[k], tiles@));
                    assert forall|i: int, k2: int|
                        0 <= i < cells && 0 <= k2 < domain@[i]@.len() implies is_one_of(
                            *(#[trigger] domain@[i]@[k2]),
                            tiles@,
                        ) by {
                        if i == index {
                            assert(domain@[i]@[k2] == instance.tile_data);
                        } else {
                            assert(domain@[i] == before[i]);
                        }
                    }
                }
                placed.set(index, Some(instance));
            },
            None => {
                break ;
            },
        }
    }
    proof {
        if n >= 2 {
            assert forall|i: int| 0 <= i < cells implies (#[trigger] placed@[i]) is Some by {
                assert(domain@[i]@.len() <= 1);
            }
        }
    }
    let mut instances: Vec<TileInstance<'a>> = Vec::new();
    let mut i: usize = 0;
    while i < cells
        invariant
            cells == 25,
            0 <= i <= cells,
            placed@.len() == cells,
            n == tiles@.len(),
            n >= 2 ==> instances@.len() == i,
            n < 2 ==> instances@.len() == 0,
            n >= 2 ==> forall|j: int| 0 <= j < cells ==> (#[trigger] placed@[j]) is Some,
            n < 2 ==> forall|j: int| 0 <= j < cells ==> (#[trigger] placed@[j]) is None,
            forall|j: int|
                0 <= j < cells ==> (#[trigger] placed@[j] matches Some(instance) ==> is_one_of(
                    *instance.tile_data,
                    tiles@,
                )),
            forall|j: int|
                0 <= j < instances@.len() ==> is_one_of(*(#[trigger] instances@[j]).tile_data, tiles@),
        decreases cells - i,
    {
        match placed[i] {
            Some(instance) => {
                instances.push(instance);
            },
            None => {},
        }
        i = i + 1;
    }
    instances
}

} // verus!
