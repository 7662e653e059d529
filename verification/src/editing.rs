//! Editing game data: what the data editor does when a button is pressed. The editor shows
//! one kind of definition at a time in a table sorted by id, with at most one definition
//! selected; it adds blank definitions under a fresh id, adds or removes the tiers of an
//! affix and the stats of a tier, and replaces an entry of a list of ids at the place where a
//! binary search for the old id lands.

use crate::affix::{AffixDefinition, AffixDefinitionDatabase, AffixDefinitionStat, AffixDefinitionTier, AffixPlacement};
use crate::affix_pool::{AffixPoolDefinition, AffixPoolDefinitionDatabase, AffixPoolDefinitionId};
use crate::data::{DataDefinition, DataDefinitionDatabase, lists_each_definition};
use crate::item::{ItemClassification, ItemDefinition, ItemDefinitionDatabase, ItemDefinitionId};
use crate::loading::{AffixPoolDefinitionRecord, AffixPoolMemberRecord, ItemDefinitionRecord, LootPoolDefinitionRecord, LootPoolMemberRecord};
use crate::loot_pool::{LootPoolDefinition, LootPoolDefinitionDatabase};
use crate::stat::Stat;
use std::cmp::Ordering;
use std::collections::BTreeMap;
use vstd::prelude::*;

verus! {

broadcast use vstd::seq_lib::group_to_multiset_ensures, vstd::std_specs::btree::group_btree_axioms;

/// Which kind of definition the editor shows.
#[derive(Clone, Copy, Debug, PartialEq, Eq, Structural)]
pub enum SelectedEditor {
    NoEditor,
    Affix,
    AffixPool,
    Item,
    LootPool,
}

impl Default for SelectedEditor {
    fn default() -> (editor: Self)
        ensures
            editor == SelectedEditor::NoEditor,
    {
        SelectedEditor::NoEditor
    }
}

/// What the editor shows: which kind of definition, and which definition is selected.
pub struct EditorSelection {
    pub selected_editor: SelectedEditor,
    pub selected_definition_id: Option<u64>,
}

impl EditorSelection {
    /// Nothing shown and nothing selected.
    pub fn new() -> (selection: Self)
        ensures
            selection.selected_editor == SelectedEditor::NoEditor,
            selection.selected_definition_id is None,
    {
        EditorSelection { selected_editor: SelectedEditor::NoEditor, selected_definition_id: None }
    }

    /// Shows another kind of definition, with nothing selected.
    pub fn open_editor(&mut self, editor: SelectedEditor)
        ensures
            final(self).selected_editor == editor,
            final(self).selected_definition_id is None,
    {
        self.selected_editor = editor;
        self.invalidate_selections();
    }

    /// Clears the selection, keeping the kind of definition shown.
    pub fn invalidate_selections(&mut self)
        ensures
            final(self).selected_editor == old(self).selected_editor,
            final(self).selected_definition_id is None,
    {
        self.selected_definition_id = None;
    }

    /// Selects the definition with this id, as clicking its row does.
    pub fn select(&mut self, id: u64)
        ensures
            final(self).selected_editor == old(self).selected_editor,
            final(self).selected_definition_id == Some(id),
    {
        self.selected_definition_id = Some(id);
    }

    /// Whether the row of the definition with this id is the selected one.
    pub fn is_selected(&self, id: u64) -> (selected: bool)
        ensures
            selected == (self.selected_definition_id == Some(id)),
    {
        match self.selected_definition_id {
            Some(selected) => selected == id,
            None => false,
        }
    }
}

/// The ids of a list of definitions, in order.
pub open spec fn listed_ids<D: DataDefinition>(listed: Seq<&D>) -> Seq<u64> {
    listed.map_values(|d: &D| d.numeric_id())
}

/// The ids are in increasing order, equal ids side by side.
pub open spec fn ids_sorted(ids: Seq<u64>) -> bool {
    forall|i: int, j: int| 0 <= i < j < ids.len() ==> ids[i] <= ids[j]
}

/// `output` lists the items of `input`, the item at place `i` being the one at place
/// `positions[i]` of `input`, each place taken once; items with equal ids come in the order
/// that they had in `input`.
pub open spec fn stable_arrangement<D: DataDefinition>(
    input: Seq<&D>,
    output: Seq<&D>,
    positions: Seq<int>,
) -> bool {
    &&& positions.len() == output.len() == input.len()
    &&& forall|i: int|
        0 <= i < output.len() ==> 0 <= #[trigger] positions[i] < input.len() && output[i]
            == input[positions[i]]
    &&& forall|i: int, j: int|
        #![trigger positions[i], positions[j]]
        0 <= i < j < output.len() ==> positions[i] != positions[j]
    &&& forall|i: int, j: int|
        #![trigger positions[i], positions[j]]
        0 <= i < j < output.len() && output[i].numeric_id() == output[j].numeric_id()
            ==> positions[i] < positions[j]
}

/// Placing an item after every item of the same or a smaller id, and before every item of a
/// larger id, keeps an arrangement stable.
proof fn lemma_inserted_after_equal_ids<D: DataDefinition>(
    input: Seq<&D>,
    before: Seq<&D>,
    before_positions: Seq<int>,
    item: &D,
    place: int,
)
    requires
        stable_arrangement(input, before, before_positions),
        ids_sorted(listed_ids(before)),
        0 <= place <= before.len(),
        forall|i: int| 0 <= i < place ==> (#[trigger] before[i]).numeric_id() <= item.numeric_id(),
        place < before.len() ==> before[place].numeric_id() > item.numeric_id(),
    ensures
        stable_arrangement(
            input.push(item),
            before.insert(place, item),
            before_positions.insert(place, input.len() as int),
        ),
{
    let output = before.insert(place, item);
    let positions = before_positions.insert(place, input.len() as int);
    let extended = input.push(item);
    let ids = listed_ids(before);
    assert forall|i: int| 0 <= i < output.len() implies 0 <= #[trigger] positions[i]
        < extended.len() && output[i] == extended[positions[i]] by {
        if i < place {
            assert(before_positions[i] < input.len());
        } else if i > place {
            assert(before_positions[i - 1] < input.len());
        }
    }
    assert forall|i: int, j: int| 0 <= i < j < output.len() implies #[trigger] positions[i]
        != #[trigger] positions[j] by {
        if i < place && j > place {
            assert(before_positions[i] != before_positions[j - 1]);
        } else if i > place {
            assert(before_positions[i - 1] != before_positions[j - 1]);
        } else if j < place {
            assert(before_positions[i] != before_positions[j]);
        } else if i == place {
            assert(before_positions[j - 1] < input.len());
        } else {
            assert(before_positions[i] < input.len());
        }
    }
    assert forall|i: int, j: int|
        0 <= i < j < output.len() && output[i].numeric_id() == output[j].numeric_id()
        implies #[trigger] positions[i] < #[trigger] positions[j] by {
        if i == place {
            assert(ids[place] <= ids[j - 1]);
            assert(ids[j - 1] == output[j].numeric_id());
        } else if j == place {
            assert(before_positions[i] < input.len());
        } else if i > place {
            assert(before_positions[i - 1] < before_positions[j - 1]);
        } else if j < place {
            assert(before_positions[i] < before_positions[j]);
        } else {
            assert(before_positions[i] < before_positions[j - 1]);
        }
    }
}

/// The definitions sorted by id, as the editor's table lists them; equal ids keep their
/// order.
pub fn sorted_by_id<'a, D: DataDefinition>(definitions: Vec<&'a D>) -> (sorted: Vec<&'a D>)
    ensures
        sorted@.to_multiset() == definitions@.to_multiset(),
        ids_sorted(listed_ids(sorted@)),
        exists|positions: Seq<int>| stable_arrangement(definitions@, sorted@, positions),
{
    let mut sorted: Vec<&'a D> = Vec::new();
    let ghost mut positions: Seq<int> = Seq::empty();
    let mut k: usize = 0;
    while k < definitions.len()
        invariant
            0 <= k <= definitions@.len(),
            sorted@.to_multiset() == definitions@.take(k as int).to_multiset(),
            ids_sorted(listed_ids(sorted@)),
            stable_arrangement(definitions@.take(k as int), sorted@, positions),
        decreases definitions@.len() - k,
    {
        let definition = definitions[k];
        let id = definition.id();
        let mut position: usize = 0;
        while position < sorted.len() && sorted[position].id() <= id
            invariant
                0 <= position <= sorted@.len(),
                forall|i: int| 0 <= i < position ==> (#[trigger] sorted@[i]).numeric_id() <= id,
            decreases sorted@.len() - position,
        {
            position = position + 1;
        }
        let ghost before = sorted@;
        let ghost before_positions = positions;
        sorted.insert(position, definition);
        proof {
            positions = before_positions.insert(position as int, k as int);
            lemma_inserted_after_equal_ids(
                definitions@.take(k as int),
                before,
                before_positions,
                definition,
                position as int,
            );
            assert(definitions@.take(k + 1) == definitions@.take(k as int).push(definition));
            assert(sorted@ == before.insert(position as int, definition));
            let ids = listed_ids(sorted@);
            assert forall|i: int, j: int| 0 <= i < j < ids.len() implies ids[i] <= ids[j] by {
                let old_ids = listed_ids(before);
                if j < position {
                    assert(ids[i] == old_ids[i] && ids[j] == old_ids[j]);
                } else if j == position {
                    assert(ids[i] == old_ids[i]);
                } else if i == position {
                    assert(ids[j] == old_ids[j - 1]);
                    assert(old_ids[j - 1] > id || position < j - 1);
                    if position < before.len() {
                        assert(old_ids[position as int] > id);
                        assert(old_ids[position as int] <= old_ids[j - 1]);
                    }
                } else if i < position {
                    assert(ids[i] == old_ids[i] && ids[j] == old_ids[j - 1]);
                } else {
                    assert(ids[i] == old_ids[i - 1] && ids[j] == old_ids[j - 1]);
                }
            }
        }
        k = k + 1;
    }
    assert(definitions@.take(definitions@.len() as int) == definitions@);
    assert(stable_arrangement(definitions@, sorted@, positions));
    sorted
}

/// The largest id among the listed definitions, or 0 when there is none.
fn largest_listed_id<D: DataDefinition>(listed: &Vec<&D>) -> (largest: u64)
    ensures
        forall|i: int| 0 <= i < listed@.len() ==> (#[trigger] listed@[i]).numeric_id() <= largest,
        largest == 0 || exists|i: int| 0 <= i < listed@.len() && (#[trigger] listed@[i]).numeric_id() == largest,
{
    let mut largest: u64 = 0;
    let mut i: usize = 0;
    while i < listed.len()
        invariant
            0 <= i <= listed@.len(),
            forall|k: int| 0 <= k < i ==> (#[trigger] listed@[k]).numeric_id() <= largest,
            largest == 0 || exists|k: int| 0 <= k < i && (#[trigger] listed@[k]).numeric_id() == largest,
        decreases listed@.len() - i,
    {
        let id = listed[i].id();
        if id > largest {
            largest = id;
        }
        i = i + 1;
    }
    largest
}

/// `largest` is the largest id that the database holds, or 0 when it holds none.
pub open spec fn is_largest_id<K, D: DataDefinition<DefinitionTypeId = K>>(contents: Map<K, D>, largest: u64) -> bool {
    &&& forall|key: K| #[trigger] contents.contains_key(key) ==> contents[key].numeric_id() <= largest
    &&& (largest == 0 || exists|key: K| #[trigger] contents.contains_key(key) && contents[key].numeric_id() == largest)
}

proof fn lemma_largest_listed_is_largest<K, D: DataDefinition<DefinitionTypeId = K>>(
    contents: Map<K, D>,
    listed: Seq<&D>,
    largest: u64,
)
    requires
        lists_each_definition(contents, listed.map_values(|d: &D| *d)),
        forall|i: int| 0 <= i < listed.len() ==> (#[trigger] listed[i]).numeric_id() <= largest,
        largest == 0 || exists|i: int| 0 <= i < listed.len() && (#[trigger] listed[i]).numeric_id() == largest,
    ensures
        is_largest_id(contents, largest),
{
    let values = listed.map_values(|d: &D| *d);
    assert forall|key: K| #[trigger] contents.contains_key(key) implies contents[key].numeric_id() <= largest by {
        let i = choose|i: int| 0 <= i < values.len() && (#[trigger] values[i]).definition_id() == key;
        assert(values[i] == *listed[i]);
    }
    if largest != 0 {
        let i = choose|i: int| 0 <= i < listed.len() && (#[trigger] listed[i]).numeric_id() == largest;
        assert(values[i] == *listed[i]);
        assert(contents.contains_key(values[i].definition_id()));
    }
}

impl AffixDefinitionDatabase {
    /// Adds a blank affix definition under the id after the largest one held (1 for an empty
    /// database) and returns that id. Returns `None`, changing nothing, when the largest id
    /// held is the largest `u32`.
    pub fn add_blank_definition(&mut self) -> (added: Option<u32>)
        ensures
            match added {
                Some(id) => {
                    &&& id > 0
                    &&& is_largest_id(old(self).contents(), (id - 1) as u64)
                    &&& final(self).contents().dom() == old(self).contents().dom().insert(id)
                    &&& forall|key: u32| key != id && #[trigger] old(self).contents().contains_key(key)
                        ==> final(self).contents()[key] == old(self).contents()[key]
                    &&& final(self).contents()[id].id == id
                    &&& final(self).contents()[id].placement == AffixPlacement::Invalid
                    &&& final(self).contents()[id].tiers@ == Map::<u16, AffixDefinitionTier>::empty()
                    &&& final(self).contents()[id].name@ == Seq::<char>::empty()
                },
                None => is_largest_id(old(self).contents(), u32::MAX as u64) && final(self).contents() == old(self).contents(),
            },
    {
        let listed = self.definitions();
        let largest = largest_listed_id(&listed);
        proof {
            lemma_largest_listed_is_largest(self.contents(), listed@, largest);
        }
        if largest >= u32::MAX as u64 {
            return None;
        }
        let id = (largest + 1) as u32;
        let blank = AffixDefinition { id, placement: AffixPlacement::Invalid, tiers: BTreeMap::new(), name: String::new() };
        self.add_definition(blank);
        Some(id)
    }
}

impl<'db> ItemDefinitionDatabase<'db> {
    /// Adds a blank item definition under the id after the largest one held (1 for an empty
    /// database) and returns that id. Returns `None`, changing nothing, when the largest id
    /// held is the largest `u64`.
    pub fn add_blank_definition(&mut self) -> (added: Option<ItemDefinitionId>)
        ensures
            match added {
                Some(id) => {
                    &&& id > 0
                    &&& is_largest_id(old(self).contents(), (id - 1) as u64)
                    &&& final(self).contents().dom() == old(self).contents().dom().insert(id)
                    &&& forall|key: u64| key != id && #[trigger] old(self).contents().contains_key(key)
                        ==> final(self).contents()[key] == old(self).contents()[key]
                    &&& final(self).contents()[id].id == id
                    &&& final(self).contents()[id].classification == ItemClassification::Invalid
                    &&& final(self).contents()[id].affix_pools@.len() == 0
                    &&& final(self).contents()[id].fixed_affixes@.len() == 0
                    &&& final(self).contents()[id].name@ == Seq::<char>::empty()
                },
                None => is_largest_id(old(self).contents(), u64::MAX) && final(self).contents() == old(self).contents(),
            },
    {
        let listed = self.definitions();
        let largest = largest_listed_id(&listed);
        proof {
            lemma_largest_listed_is_largest(self.contents(), listed@, largest);
        }
        if largest == u64::MAX {
            return None;
        }
        let id = largest + 1;
        let blank = ItemDefinition {
            id,
            classification: ItemClassification::Invalid,
            affix_pools: Vec::new(),
            fixed_affixes: Vec::new(),
            name: String::new(),
        };
        self.add_definition(blank);
        Some(id)
    }
}

impl<'db> LootPoolDefinitionDatabase<'db> {
    /// Adds a blank loot pool under the id after the largest one held (1 for an empty
    /// database) and returns that id. Returns `None`, changing nothing, when the largest id
    /// held is the largest `u32`.
    pub fn add_blank_definition(&mut self) -> (added: Option<u32>)
        ensures
            match added {
                Some(id) => {
                    &&& id > 0
                    &&& is_largest_id(old(self).contents(), (id - 1) as u64)
                    &&& final(self).contents().dom() == old(self).contents().dom().insert(id)
                    &&& forall|key: u32| key != id && #[trigger] old(self).contents().contains_key(key)
                        ==> final(self).contents()[key] == old(self).contents()[key]
                    &&& final(self).contents()[id].id == id
                    &&& final(self).contents()[id].name@ == Seq::<char>::empty()
                    &&& final(self).contents()[id].members@.len() == 0
                },
                None => is_largest_id(old(self).contents(), u32::MAX as u64) && final(self).contents() == old(self).contents(),
            },
    {
        let listed = self.definitions();
        let largest = largest_listed_id(&listed);
        proof {
            lemma_largest_listed_is_largest(self.contents(), listed@, largest);
        }
        if largest >= u32::MAX as u64 {
            return None;
        }
        let id = (largest + 1) as u32;
        let blank = LootPoolDefinition { id, name: String::new(), members: Vec::new() };
        self.add_definition(blank);
        Some(id)
    }
}

impl<'db> AffixPoolDefinitionDatabase<'db> {
    /// Adds a blank affix pool under the id after that of the pool listed last, and returns
    /// that id. The listing follows no particular order, so the new id is one more than the
    /// id of some pool held, and may be one already in use, whose pool it then replaces.
    /// Returns `None`, changing nothing, when the database is empty or that id would not fit
    /// in a `u32`.
    pub fn add_blank_definition(&mut self) -> (added: Option<AffixPoolDefinitionId>)
        ensures
            added matches Some(id) ==> {
                &&& id > 0
                &&& exists|key: u32| #[trigger] old(self).contents().contains_key(key) && key + 1 == id
                &&& final(self).contents() == old(self).contents().insert(id, final(self).contents()[id])
                &&& final(self).contents()[id].id == id
                &&& final(self).contents()[id].name@ == Seq::<char>::empty()
                &&& final(self).contents()[id].members@.len() == 0
            },
            added is None ==> final(self).contents() == old(self).contents(),
            old(self).contents().dom().len() == 0 ==> added is None,
            (forall|key: u32| #[trigger] old(self).contents().contains_key(key) ==> key < u32::MAX)
                && old(self).contents().dom().len() > 0 ==> added is Some,
    {
        let listed = self.definitions();
        if listed.len() == 0 {
            return None;
        }
        let last = listed[listed.len() - 1];
        let ghost contents = self.contents();
        proof {
            let values = listed@.map_values(|d: &AffixPoolDefinition<'db>| *d);
            assert(values[listed@.len() - 1] == *last);
            assert(contents.contains_key(last.id));
        }
        if last.id == u32::MAX {
            return None;
        }
        let id = last.id + 1;
        let blank = AffixPoolDefinition { id, members: Vec::new(), name: String::new() };
        self.add_definition(blank);
        Some(id)
    }
}

impl AffixDefinition {
    /// Adds a blank tier numbered one more than the number of tiers, in place of any tier
    /// with that number.
    pub fn add_tier(&mut self)
        requires
            old(self).tiers@.dom().len() < 65535,
        ensures
            ({
                let next = (old(self).tiers@.dom().len() + 1) as u16;
                &&& final(self).tiers@.dom() == old(self).tiers@.dom().insert(next)
                &&& forall|key: u16| key != next && #[trigger] old(self).tiers@.contains_key(key)
                    ==> final(self).tiers@[key] == old(self).tiers@[key]
                &&& final(self).tiers@[next].tier == next
                &&& final(self).tiers@[next].stats@.len() == 0
                &&& final(self).tiers@[next].item_level_req is None
                &&& final(self).tiers@[next].precision_places is None
            }),
            final(self).id == old(self).id,
            final(self).placement == old(self).placement,
            final(self).name == old(self).name,
    {
        let next_id = self.tiers.len() as u16 + 1;
        self.tiers.insert(
            next_id,
            AffixDefinitionTier { tier: next_id, stats: Vec::new(), item_level_req: None, precision_places: None },
        );
    }

    /// Removes the tier numbered as many as there are tiers (the number taken modulo 2^16),
    /// if there is one.
    pub fn remove_last_tier(&mut self)
        ensures
            final(self).tiers@ == old(self).tiers@.remove(old(self).tiers@.dom().len() as u16),
            final(self).id == old(self).id,
            final(self).placement == old(self).placement,
            final(self).name == old(self).name,
    {
        let last_id = self.tiers.len() as u16;
        self.tiers.remove(&last_id);
    }
}

impl AffixDefinitionTier {
    /// Adds a stat rolling `Resolve` between 0 and 0, to be set afterwards.
    pub fn add_stat(&mut self)
        ensures
            final(self).stats@ == old(self).stats@.push(
                AffixDefinitionStat { stat: Stat::Resolve, lower_bound_bits: 0, upper_bound_bits: 0 },
            ),
            final(self).tier == old(self).tier,
            final(self).item_level_req == old(self).item_level_req,
            final(self).precision_places == old(self).precision_places,
    {
        self.stats.push(AffixDefinitionStat { stat: Stat::Resolve, lower_bound_bits: 0, upper_bound_bits: 0 });
    }

    /// Removes the last stat.
    pub fn remove_last_stat(&mut self)
        requires
            old(self).stats@.len() > 0,
        ensures
            final(self).stats@ == old(self).stats@.drop_last(),
            final(self).tier == old(self).tier,
            final(self).item_level_req == old(self).item_level_req,
            final(self).precision_places == old(self).precision_places,
    {
        let last = self.stats.len() - 1;
        self.stats.remove(last);
    }
}

/// The ids without any equal to `id`, in order.
fn without_id(ids: &Vec<u32>, id: u32) -> (kept: Vec<u32>)
    ensures
        kept@ == ids@.filter(|x: u32| x != id),
{
    let mut kept: Vec<u32> = Vec::new();
    let mut i: usize = 0;
    while i < ids.len()
        invariant
            0 <= i <= ids@.len(),
            kept@ == ids@.take(i as int).filter(|x: u32| x != id),
        decreases ids@.len() - i,
    {
        proof {
            assert(ids@.take(i + 1) == ids@.take(i as int).push(ids@[i as int]));
            ids@.take(i as int).lemma_filter_push(ids@[i as int], |x: u32| x != id);
        }
        if ids[i] != id {
            kept.push(ids[i]);
        }
        i = i + 1;
    }
    assert(ids@.take(ids@.len() as int) == ids@);
    kept
}

/// What `binary_search_by` returns on a slice of keys when it orders each key against
/// `target` as `key_order` does.
pub uninterp spec fn key_search(keys: Seq<Option<u64>>, target: u64) -> Result<usize, usize>;

/// The rank of a key in the order that the search follows: an absent key before every id.
pub open spec fn key_rank(key: Option<u64>) -> int {
    match key {
        Some(id) => id as int,
        None => -1,
    }
}

/// The keys are in increasing order.
pub open spec fn keys_sorted(keys: Seq<Option<u64>>) -> bool {
    forall|i: int, j: int| 0 <= i < j < keys.len() ==> key_rank(keys[i]) <= key_rank(keys[j])
}

/// What a search for `target` among keys in increasing order gives back: `Ok` with the place
/// of a key equal to `target`, or `Err` when no key equals it.
pub open spec fn search_result_holds(keys: Seq<Option<u64>>, target: u64, found: Result<usize, usize>) -> bool {
    match found {
        Ok(place) => place < keys.len() && keys[place as int] == Some(target),
        Err(_) => !keys.contains(Some(target)),
    }
}

/// How a key compares with the id searched for: an absent key comes first.
fn key_order(key: Option<u64>, target: u64) -> (order: Ordering)
    ensures
        order == (if key_rank(key) < target {
            Ordering::Less
        } else if key_rank(key) == target {
            Ordering::Equal
        } else {
            Ordering::Greater
        }),
{
    match key {
        None => Ordering::Less,
        Some(id) => if id < target {
            Ordering::Less
        } else if id == target {
            Ordering::Equal
        } else {
            Ordering::Greater
        },
    }
}

/// Calls `binary_search_by` on the keys, ordering each against `target` with `key_order`.
/// Its documentation promises a result only for keys in increasing order: `Ok` with the
/// place of a key equal to `target` (any one of several), or `Err` when no key equals it. It
/// chooses deterministically, so the result is named by `key_search`; of keys out of order
/// nothing more is stated, as the documentation calls that result unspecified.
#[verifier::external_body]
fn search_key(keys: &Vec<Option<u64>>, target: u64) -> (found: Result<usize, usize>)
    ensures
        found == key_search(keys@, target),
        keys_sorted(keys@) ==> search_result_holds(keys@, target, found),
{
    keys.binary_search_by(|key| key_order(*key, target))
}

/// Where the editor's search for `target` among the keys lands, when it lands on a key that
/// the list has; the editor stops there otherwise.
pub open spec fn search_place(keys: Seq<Option<u64>>, target: u64) -> Option<int> {
    match key_search(keys, target) {
        Ok(place) => if place < keys.len() {
            Some(place as int)
        } else {
            None
        },
        Err(_) => None,
    }
}

/// The keys by which the editor searches a list of ids.
pub open spec fn id_keys(ids: Seq<u32>) -> Seq<Option<u64>> {
    ids.map_values(|id: u32| Some(id as u64))
}

/// The keys by which the editor searches the members of a loot pool: their item ids.
pub open spec fn member_keys(members: Seq<LootPoolMemberRecord>) -> Seq<Option<u64>> {
    members.map_values(|member: LootPoolMemberRecord| member.item_id)
}

/// The place at which the editor's search finds `target` among the keys.
fn found_place(keys: &Vec<Option<u64>>, target: u64) -> (place: Option<usize>)
    ensures
        match place {
            Some(p) => search_place(keys@, target) == Some(p as int),
            None => search_place(keys@, target) is None,
        },
        keys_sorted(keys@) ==> (place is Some <==> keys@.contains(Some(target))),
        keys_sorted(keys@) && place is Some ==> keys@[place->0 as int] == Some(target),
{
    match search_key(keys, target) {
        Ok(place) => if place < keys.len() {
            Some(place)
        } else {
            None
        },
        Err(_) => None,
    }
}

/// The keys of a list of ids.
fn keys_of_ids(ids: &Vec<u32>) -> (keys: Vec<Option<u64>>)
    ensures
        keys@ == id_keys(ids@),
{
    let mut keys: Vec<Option<u64>> = Vec::new();
    let mut i: usize = 0;
    while i < ids.len()
        invariant
            0 <= i <= ids@.len(),
            keys@ == id_keys(ids@).take(i as int),
        decreases ids@.len() - i,
    {
        keys.push(Some(ids[i] as u64));
        i = i + 1;
    }
    keys
}

/// The keys of the members of a loot pool.
fn keys_of_members(members: &Vec<LootPoolMemberRecord>) -> (keys: Vec<Option<u64>>)
    ensures
        keys@ == member_keys(members@),
{
    let mut keys: Vec<Option<u64>> = Vec::new();
    let mut i: usize = 0;
    while i < members.len()
        invariant
            0 <= i <= members@.len(),
            keys@ == member_keys(members@).take(i as int),
        decreases members@.len() - i,
    {
        keys.push(members[i].item_id);
        i = i + 1;
    }
    keys
}

/// The ids with the entry at `place` taken out and `new_id` put at the end.
pub open spec fn replaced_at(ids: Seq<u32>, place: int, new_id: u32) -> Seq<u32> {
    ids.remove(place).push(new_id)
}

/// Takes out the entry where the editor's search for `old_id` lands and puts `new_id` at the
/// end.
fn replace_searched_id(ids: &mut Vec<u32>, old_id: u32, new_id: u32)
    requires
        search_place(id_keys(old(ids)@), old_id as u64) is Some,
    ensures
        final(ids)@ == replaced_at(old(ids)@, search_place(id_keys(old(ids)@), old_id as u64)->0, new_id),
        keys_sorted(id_keys(old(ids)@)) ==> old(ids)@[search_place(id_keys(old(ids)@), old_id as u64)->0] == old_id,
{
    let keys = keys_of_ids(ids);
    let place = found_place(&keys, old_id as u64).unwrap();
    proof {
        if keys_sorted(id_keys(ids@)) {
            assert(keys@[place as int] == Some(ids@[place as int] as u64));
        }
    }
    ids.remove(place);
    ids.push(new_id);
}

impl AffixPoolDefinitionRecord {
    /// Adds a member of weight 0 whose affix is the first the database lists, to be chosen
    /// afterwards.
    pub fn add_member(&mut self, affix_db: &AffixDefinitionDatabase)
        requires
            affix_db.contents().dom().len() > 0,
        ensures
            final(self).id == old(self).id,
            final(self).name == old(self).name,
            exists|affix_id: u32|
                #[trigger] affix_db.contents().contains_key(affix_id) && final(self).members@ == old(self).members@.push(
                    AffixPoolMemberRecord { affix_id: Some(affix_id), weight: 0 },
                ),
    {
        let listed = affix_db.definitions();
        let first = listed[0];
        proof {
            let values = listed@.map_values(|d: &AffixDefinition| *d);
            assert(values[0] == *first);
        }
        self.members.push(AffixPoolMemberRecord { affix_id: Some(first.id), weight: 0 });
    }
}

impl ItemDefinitionRecord {
    /// Adds a fixed affix whose id is the number of fixed affixes, to be chosen afterwards.
    pub fn add_fixed_affix(&mut self)
        ensures
            final(self).fixed_affix_ids@ == old(self).fixed_affix_ids@.push(old(self).fixed_affix_ids@.len() as u32),
            final(self).affix_pool_ids == old(self).affix_pool_ids,
            final(self).id == old(self).id,
    {
        let next = self.fixed_affix_ids.len() as u32;
        self.fixed_affix_ids.push(next);
    }

    /// Adds an affix pool whose id is the number of affix pools, to be chosen afterwards.
    pub fn add_affix_pool(&mut self)
        ensures
            final(self).affix_pool_ids@ == old(self).affix_pool_ids@.push(old(self).affix_pool_ids@.len() as u32),
            final(self).fixed_affix_ids == old(self).fixed_affix_ids,
            final(self).id == old(self).id,
    {
        let next = self.affix_pool_ids.len() as u32;
        self.affix_pool_ids.push(next);
    }

    /// Removes, as the editor's Remove button does, every fixed affix whose id is the number
    /// of fixed affixes less one.
    pub fn remove_fixed_affix(&mut self)
        requires
            old(self).fixed_affix_ids@.len() > 0,
        ensures
            final(self).fixed_affix_ids@ == old(self).fixed_affix_ids@.filter(
                |x: u32| x != (old(self).fixed_affix_ids@.len() - 1) as u32,
            ),
            final(self).affix_pool_ids == old(self).affix_pool_ids,
            final(self).id == old(self).id,
    {
        let id = (self.fixed_affix_ids.len() - 1) as u32;
        self.fixed_affix_ids = without_id(&self.fixed_affix_ids, id);
    }

    /// Removes, as the editor's Remove button does, every affix pool whose id is the number
    /// of affix pools less one.
    pub fn remove_affix_pool(&mut self)
        requires
            old(self).affix_pool_ids@.len() > 0,
        ensures
            final(self).affix_pool_ids@ == old(self).affix_pool_ids@.filter(
                |x: u32| x != (old(self).affix_pool_ids@.len() - 1) as u32,
            ),
            final(self).fixed_affix_ids == old(self).fixed_affix_ids,
            final(self).id == old(self).id,
    {
        let id = (self.affix_pool_ids.len() - 1) as u32;
        self.affix_pool_ids = without_id(&self.affix_pool_ids, id);
    }

    /// Replaces the fixed affix `old_id` with `new_id`, an affix that the database holds, as
    /// the editor does: the entry where its search for `old_id` lands is taken out and
    /// `new_id` goes at the end. With the ids in increasing order, that entry is one equal to
    /// `old_id`.
    pub fn replace_fixed_affix(&mut self, old_id: u32, new_id: u32, affix_db: &AffixDefinitionDatabase)
        requires
            search_place(id_keys(old(self).fixed_affix_ids@), old_id as u64) is Some,
            affix_db.contents().contains_key(new_id),
        ensures
            final(self).fixed_affix_ids@ == replaced_at(
                old(self).fixed_affix_ids@,
                search_place(id_keys(old(self).fixed_affix_ids@), old_id as u64)->0,
                new_id,
            ),
            keys_sorted(id_keys(old(self).fixed_affix_ids@)) ==> old(self).fixed_affix_ids@[search_place(
                id_keys(old(self).fixed_affix_ids@),
                old_id as u64,
            )->0] == old_id,
            final(self).affix_pool_ids == old(self).affix_pool_ids,
            final(self).id == old(self).id,
    {
        replace_searched_id(&mut self.fixed_affix_ids, old_id, new_id);
    }

    /// Replaces the fixed affix `old_id` with `new_id` where the editor's search for `old_id`
    /// lands on an entry, and says whether it did; the item is left as it was otherwise.
    pub fn try_replace_fixed_affix(&mut self, old_id: u32, new_id: u32, affix_db: &AffixDefinitionDatabase) -> (replaced: bool)
        requires
            affix_db.contents().contains_key(new_id),
        ensures
            replaced == search_place(id_keys(old(self).fixed_affix_ids@), old_id as u64) is Some,
            replaced ==> final(self).fixed_affix_ids@ == replaced_at(
                old(self).fixed_affix_ids@,
                search_place(id_keys(old(self).fixed_affix_ids@), old_id as u64)->0,
                new_id,
            ),
            !replaced ==> final(self).fixed_affix_ids == old(self).fixed_affix_ids,
            final(self).affix_pool_ids == old(self).affix_pool_ids,
            final(self).id == old(self).id,
    {
        let keys = keys_of_ids(&self.fixed_affix_ids);
        match found_place(&keys, old_id as u64) {
            Some(_) => {
                self.replace_fixed_affix(old_id, new_id, affix_db);
                true
            },
            None => false,
        }
    }

    /// Replaces the affix pool `old_id` with `new_id`, a pool that the database holds, as the
    /// editor does: the entry where its search for `old_id` lands is taken out and `new_id`
    /// goes at the end. With the ids in increasing order, that entry is one equal to `old_id`.
    pub fn replace_affix_pool<'db>(&mut self, old_id: u32, new_id: u32, pool_db: &AffixPoolDefinitionDatabase<'db>)
        requires
            search_place(id_keys(old(self).affix_pool_ids@), old_id as u64) is Some,
            pool_db.contents().contains_key(new_id),
        ensures
            final(self).affix_pool_ids@ == replaced_at(
                old(self).affix_pool_ids@,
                search_place(id_keys(old(self).affix_pool_ids@), old_id as u64)->0,
                new_id,
            ),
            keys_sorted(id_keys(old(self).affix_pool_ids@)) ==> old(self).affix_pool_ids@[search_place(
                id_keys(old(self).affix_pool_ids@),
                old_id as u64,
            )->0] == old_id,
            final(self).fixed_affix_ids == old(self).fixed_affix_ids,
            final(self).id == old(self).id,
    {
        replace_searched_id(&mut self.affix_pool_ids, old_id, new_id);
    }

    /// Replaces the affix pool `old_id` with `new_id` where the editor's search for `old_id`
    /// lands on an entry, and says whether it did; the item is left as it was otherwise.
    pub fn try_replace_affix_pool<'db>(&mut self, old_id: u32, new_id: u32, pool_db: &AffixPoolDefinitionDatabase<'db>) -> (replaced: bool)
        requires
            pool_db.contents().contains_key(new_id),
        ensures
            replaced == search_place(id_keys(old(self).affix_pool_ids@), old_id as u64) is Some,
            replaced ==> final(self).affix_pool_ids@ == replaced_at(
                old(self).affix_pool_ids@,
                search_place(id_keys(old(self).affix_pool_ids@), old_id as u64)->0,
                new_id,
            ),
            !replaced ==> final(self).affix_pool_ids == old(self).affix_pool_ids,
            final(self).fixed_affix_ids == old(self).fixed_affix_ids,
            final(self).id == old(self).id,
    {
        let keys = keys_of_ids(&self.affix_pool_ids);
        match found_place(&keys, old_id as u64) {
            Some(_) => {
                self.replace_affix_pool(old_id, new_id, pool_db);
                true
            },
            None => false,
        }
    }
}

impl LootPoolDefinitionRecord {
    /// Adds a member of weight 0 naming item id 0, to be chosen afterwards.
    pub fn add_member(&mut self)
        ensures
            final(self).members@ == old(self).members@.push(LootPoolMemberRecord { item_id: Some(0), weight: 0 }),
            final(self).id == old(self).id,
    {
        self.members.push(LootPoolMemberRecord { item_id: Some(0), weight: 0 });
    }

    /// Removes, as the editor's Remove button does, every member whose item id is the number
    /// of members less one.
    pub fn remove_member(&mut self)
        requires
            old(self).members@.len() > 0,
        ensures
            final(self).members@ == old(self).members@.filter(
                |member: LootPoolMemberRecord| member.item_id != Some((old(self).members@.len() - 1) as u64),
            ),
            final(self).id == old(self).id,
    {
        let id = (self.members.len() - 1) as u64;
        let mut kept: Vec<LootPoolMemberRecord> = Vec::new();
        let mut i: usize = 0;
        while i < self.members.len()
            invariant
                0 <= i <= self.members@.len(),
                id == (self.members@.len() - 1) as u64,
                kept@ == self.members@.take(i as int).filter(|member: LootPoolMemberRecord| member.item_id != Some(id)),
            decreases self.members@.len() - i,
        {
            let member = self.members[i];
            proof {
                assert(self.members@.take(i + 1) == self.members@.take(i as int).push(member));
                self.members@.take(i as int).lemma_filter_push(member, |m: LootPoolMemberRecord| m.item_id != Some(id));
            }
            let keep = match member.item_id {
                Some(item_id) => item_id != id,
                None => true,
            };
            if keep {
                kept.push(member);
            }
            i = i + 1;
        }
        assert(self.members@.take(self.members@.len() as int) == self.members@);
        self.members = kept;
    }

    /// Replaces the member naming item `old_id` with one of weight 1 naming `new_id`, an item
    /// that the database holds, as the editor does: the member where its search for `old_id`
    /// lands is taken out and the new one goes at the end. With the members in increasing
    /// order of item id, the member taken out is one naming `old_id`.
    pub fn replace_member<'db>(&mut self, old_id: u64, new_id: u64, item_db: &ItemDefinitionDatabase<'db>)
        requires
            search_place(member_keys(old(self).members@), old_id) is Some,
            item_db.contents().contains_key(new_id),
        ensures
            final(self).id == old(self).id,
            final(self).members@ == old(self).members@.remove(
                search_place(member_keys(old(self).members@), old_id)->0,
            ).push(LootPoolMemberRecord { item_id: Some(new_id), weight: 1 }),
            keys_sorted(member_keys(old(self).members@)) ==> old(self).members@[search_place(
                member_keys(old(self).members@),
                old_id,
            )->0].item_id == Some(old_id),
    {
        let keys = keys_of_members(&self.members);
        let place = found_place(&keys, old_id).unwrap();
        self.members.remove(place);
        self.members.push(LootPoolMemberRecord { item_id: Some(new_id), weight: 1 });
    }

    /// Replaces the member naming item `old_id` where the editor's search for it lands on a
    /// member, and says whether it did; the loot pool is left as it was otherwise.
    pub fn try_replace_member<'db>(&mut self, old_id: u64, new_id: u64, item_db: &ItemDefinitionDatabase<'db>) -> (replaced: bool)
        requires
            item_db.contents().contains_key(new_id),
        ensures
            final(self).id == old(self).id,
            replaced == search_place(member_keys(old(self).members@), old_id) is Some,
            replaced ==> final(self).members@ == old(self).members@.remove(
                search_place(member_keys(old(self).members@), old_id)->0,
            ).push(LootPoolMemberRecord { item_id: Some(new_id), weight: 1 }),
            !replaced ==> final(self).members == old(self).members,
    {
        let keys = keys_of_members(&self.members);
        match found_place(&keys, old_id) {
            Some(_) => {
                self.replace_member(old_id, new_id, item_db);
                true
            },
            None => false,
        }
    }
}

} // verus!
