//! Items: definitions of what can drop, and the instances that drop, with their affixes.

use crate::affix::{AffixDefinition, AffixPlacement};
use crate::affix_generation::AffixInstance;
use crate::affix_pool::AffixPoolDefinition;
use crate::data::{
    DataDefinition, DataDefinitionDatabase, all_definitions_valid, definitions_by_id,
    keyed_by_id, lemma_definitions_by_id_keyed, list_definitions,
};
use std::collections::HashMap;
use vstd::prelude::*;

verus! {

broadcast use vstd::std_specs::hash::group_hash_axioms;

pub type ItemDefinitionId = u64;

#[derive(Clone, Copy, Debug, PartialEq, Eq, Structural)]
pub enum ItemEquipSlot {
    // The set of slots is not final.
    Head,
    LeftArm,
    RightArm,
    Body,
    Belt,
    Legs,
    Boots,
}

#[derive(Clone, Copy, Debug, PartialEq, Eq, Structural)]
pub enum ItemClassification {
    Invalid,
    Equippable(ItemEquipSlot),
    Currency,
}

#[derive(Clone, Debug)]
pub struct ItemDefinition<'db> {
    pub id: ItemDefinitionId,
    pub classification: ItemClassification,
    /// The affix pools from which an item of this definition rolls its affixes.
    pub affix_pools: Vec<&'db AffixPoolDefinition<'db>>,
    /// Affixes that every item of this definition carries; an item with any rolls no others.
    pub fixed_affixes: Vec<&'db AffixDefinition>,
    pub name: String,
}

impl<'db> DataDefinition for ItemDefinition<'db> {
    type DefinitionTypeId = ItemDefinitionId;

    open spec fn definition_id(&self) -> ItemDefinitionId {
        self.id
    }

    open spec fn numeric_id(&self) -> u64 {
        self.id
    }

    /// An item definition is valid when it has a classification.
    open spec fn is_valid(&self) -> bool {
        !(self.classification is Invalid)
    }

    fn id(&self) -> (id: u64) {
        self.id
    }

    fn validate(&self) -> (valid: bool) {
        match self.classification {
            ItemClassification::Invalid => false,
            _ => true,
        }
    }
}

pub struct ItemDefinitionDatabase<'db> {
    items: HashMap<ItemDefinitionId, ItemDefinition<'db>>,
}

impl<'db> ItemDefinitionDatabase<'db> {
    #[verifier::type_invariant]
    spec fn keys_are_ids(&self) -> bool {
        keyed_by_id(self.items@)
    }

    /// Builds a database from definitions in the order they were loaded; a later definition
    /// replaces an earlier one with the same id.
    pub fn from_definitions(definitions: Vec<ItemDefinition<'db>>) -> (database: Self)
        ensures
            database.contents() == definitions_by_id(definitions@),
    {
        let mut items: HashMap<ItemDefinitionId, ItemDefinition<'db>> = HashMap::new();
        let ghost all = definitions@;
        let mut i: usize = 0;
        let count = definitions.len();
        let mut remaining = definitions;
        proof {
            assert(all.take(0) == Seq::<ItemDefinition<'db>>::empty());
        }
        while remaining.len() > 0
            invariant
                0 <= i <= all.len(),
                count == all.len(),
                remaining@ == all.skip(i as int),
                items@ == definitions_by_id(all.take(i as int)),
            decreases remaining@.len(),
        {
            let definition = remaining.remove(0);
            assert(definition == all[i as int]);
            assert(all.take(i as int + 1).drop_last() == all.take(i as int));
            items.insert(definition.id, definition);
            i = i + 1;
        }
        assert(all.take(all.len() as int) == all);
        proof {
            lemma_definitions_by_id_keyed(all);
        }
        ItemDefinitionDatabase { items }
    }
}

impl<'db> DataDefinitionDatabase<ItemDefinition<'db>> for ItemDefinitionDatabase<'db> {
    closed spec fn contents(&self) -> Map<ItemDefinitionId, ItemDefinition<'db>> {
        self.items@
    }

    fn validate(&self) -> (loaded: bool) {
        all_definitions_valid(&self.items)
    }

    fn definition(&self, id: ItemDefinitionId) -> (found: Option<&ItemDefinition<'db>>) {
        proof {
            use_type_invariant(self);
        }
        self.items.get(&id)
    }

    fn definitions(&self) -> (all: Vec<&ItemDefinition<'db>>) {
        proof {
            use_type_invariant(self);
        }
        list_definitions(&self.items)
    }

    fn add_definition(&mut self, definition: ItemDefinition<'db>) {
        proof {
            use_type_invariant(&*self);
        }
        let mut items = HashMap::new();
        std::mem::swap(&mut items, &mut self.items);
        items.insert(definition.id, definition);
        self.items = items;
    }
}

/// An item that dropped: its definition, and the affixes it rolled, each carrying stats `S`.
#[derive(Debug)]
pub struct ItemInstance<'db, S> {
    pub guid: String,
    pub definition: &'db ItemDefinition<'db>,
    pub affixes: Vec<AffixInstance<'db, S>>,
}

/// Rarity is a misnomer in our implementation, but is the standard for the genre
#[derive(Clone, Copy, Debug, PartialEq, Eq, Structural)]
pub enum ItemInstanceRarityTier {
    /// An item with at most one prefix and one suffix
    Common,
    /// An item with at most two prefixes and two suffixes
    Uncommon,
    /// An item with at most three prefixes and three suffixes
    Rare,
    /// An item that possesses fixed affixes
    Fabled,
}

/// The affixes, in order, that have a given placement.
pub open spec fn affixes_placed<'db, S>(affixes: Seq<AffixInstance<'db, S>>, placement: AffixPlacement) -> Seq<
    AffixInstance<'db, S>,
> {
    affixes.filter(|affix: AffixInstance<'db, S>| affix.definition.placement == placement)
}

/// An item has a rarity when its definition has fixed affixes or it carries at most three
/// prefixes and at most three suffixes.
pub open spec fn has_rarity(fixed_affix_count: nat, prefixes: nat, suffixes: nat) -> bool {
    fixed_affix_count > 0 || (prefixes <= 3 && suffixes <= 3)
}

/// The rarity of an item: fabled with fixed affixes, else by its largest number of affixes
/// of one placement: at most one each is common, at most two each uncommon, else rare.
pub open spec fn rarity_of(fixed_affix_count: nat, prefixes: nat, suffixes: nat) -> ItemInstanceRarityTier {
    if fixed_affix_count > 0 {
        ItemInstanceRarityTier::Fabled
    } else if prefixes <= 1 && suffixes <= 1 {
        ItemInstanceRarityTier::Common
    } else if prefixes <= 2 && suffixes <= 2 {
        ItemInstanceRarityTier::Uncommon
    } else {
        ItemInstanceRarityTier::Rare
    }
}

impl<'db, S> ItemInstance<'db, S> {
    /// The number of prefixes and the number of suffixes the item carries.
    pub fn placement_counts(&self) -> (counts: (usize, usize))
        ensures
            counts.0 == affixes_placed(self.affixes@, AffixPlacement::Prefix).len(),
            counts.1 == affixes_placed(self.affixes@, AffixPlacement::Suffix).len(),
    {
        let mut prefixes: usize = 0;
        let mut suffixes: usize = 0;
        let mut i: usize = 0;
        while i < self.affixes.len()
            invariant
                0 <= i <= self.affixes@.len(),
                prefixes == affixes_placed(self.affixes@.take(i as int), AffixPlacement::Prefix).len(),
                suffixes == affixes_placed(self.affixes@.take(i as int), AffixPlacement::Suffix).len(),
                prefixes <= i,
                suffixes <= i,
            decreases self.affixes@.len() - i,
        {
            let placement = self.affixes[i].definition.placement;
            proof {
                let taken = self.affixes@.take(i as int);
                let affix = self.affixes@[i as int];
                assert(self.affixes@.take(i + 1) == taken.push(affix));
                taken.lemma_filter_push(affix, |a: AffixInstance<'db, S>| a.definition.placement == AffixPlacement::Prefix);
                taken.lemma_filter_push(affix, |a: AffixInstance<'db, S>| a.definition.placement == AffixPlacement::Suffix);
            }
            match placement {
                AffixPlacement::Prefix => {
                    prefixes = prefixes + 1;
                },
                AffixPlacement::Suffix => {
                    suffixes = suffixes + 1;
                },
                AffixPlacement::Invalid => {},
            }
            i = i + 1;
        }
        assert(self.affixes@.take(self.affixes@.len() as int) == self.affixes@);
        (prefixes, suffixes)
    }

    /// Whether the item has a rarity: fixed affixes, or at most three prefixes and at most
    /// three suffixes.
    pub fn has_rarity(&self) -> (defined: bool)
        ensures
            defined == has_rarity(
                self.definition.fixed_affixes@.len(),
                affixes_placed(self.affixes@, AffixPlacement::Prefix).len(),
                affixes_placed(self.affixes@, AffixPlacement::Suffix).len(),
            ),
    {
        let (prefixes, suffixes) = self.placement_counts();
        !self.definition.fixed_affixes.is_empty() || (prefixes <= 3 && suffixes <= 3)
    }

    /// The rarity of the item, by its fixed affixes and its numbers of prefixes and suffixes.
    pub fn rarity(&self) -> (tier: ItemInstanceRarityTier)
        requires
            has_rarity(
                self.definition.fixed_affixes@.len(),
                affixes_placed(self.affixes@, AffixPlacement::Prefix).len(),
                affixes_placed(self.affixes@, AffixPlacement::Suffix).len(),
            ),
        ensures
            tier == rarity_of(
                self.definition.fixed_affixes@.len(),
                affixes_placed(self.affixes@, AffixPlacement::Prefix).len(),
                affixes_placed(self.affixes@, AffixPlacement::Suffix).len(),
            ),
    {
        if !self.definition.fixed_affixes.is_empty() {
            return ItemInstanceRarityTier::Fabled;
        }
        let (prefixes, suffixes) = self.placement_counts();
        if prefixes <= 1 && suffixes <= 1 {
            ItemInstanceRarityTier::Common
        } else if prefixes <= 2 && suffixes <= 2 {
            ItemInstanceRarityTier::Uncommon
        } else {
            ItemInstanceRarityTier::Rare
        }
    }
}

/// Only an item definition classified as invalid is refused: a currency and an item for any
/// equipment slot are valid.
pub proof fn lemma_only_invalid_items_are_refused<'db>(definition: ItemDefinition<'db>)
    ensures
        definition.classification == ItemClassification::Currency ==> definition.is_valid(),
        definition.classification is Equippable ==> definition.is_valid(),
        definition.classification == ItemClassification::Invalid ==> !definition.is_valid(),
{
}

} // verus!
