//! Loot pools: weighted lists of item definitions. Dropping loot from a pool picks one of
//! its members by weight and makes an item of it.

use crate::affix::AffixDefinitionDatabase;
use crate::affix_pool::AffixPoolDefinitionDatabase;
use crate::data::{
    DataDefinition, DataDefinitionDatabase, DataInstanceGenerator, all_definitions_valid,
    definitions_by_id, keyed_by_id, lemma_definitions_by_id_keyed, list_definitions,
};
use crate::item::{ItemDefinition, ItemDefinitionDatabase};
use crate::item_generation::{
    GeneratedItem, ItemDefinitionCriteria, ItemGenerator, can_make_item_with,
    check_can_make_item, default_count_weighting, is_default_item_criteria, may_make_item,
    total_weight,
};
use crate::random::{sample_weighted_index, weight_sum, weights_can_be_sampled};
use std::collections::HashMap;
use vstd::prelude::*;

verus! {

broadcast use vstd::std_specs::hash::group_hash_axioms;

pub type LootPoolDefinitionId = u32;

/// A [LootPoolMember] is a pairing of an item that can drop, in tandem with the chance that item will drop.
#[derive(Clone, Copy, Debug)]
pub struct LootPoolMember<'db> {
    /// What item will be generated when selected.
    /// The affixes of the item are resolved when generating the item itself, outside of the purview of [LootPoolDefinition]s.
    pub item_def: &'db ItemDefinition<'db>,
    /// Weight indicates how often this member will be chosen. A higher value = more common.
    pub weight: u64,
}

/// A [LootPoolDefinition] is a collection of [LootPoolMember]s. When generating items from a loot pool,
/// the item will be chosen from one of the [LootPoolMember]s.
/// Enemies may have one or more [LootPoolDefinition]s.
#[derive(Clone, Debug)]
pub struct LootPoolDefinition<'db> {
    pub id: LootPoolDefinitionId,
    pub name: String,
    /// All [LootPoolMember]s that can drop as part of this [LootPoolDefinition].
    pub members: Vec<LootPoolMember<'db>>,
}

impl<'db> DataDefinition for LootPoolDefinition<'db> {
    type DefinitionTypeId = LootPoolDefinitionId;

    open spec fn definition_id(&self) -> LootPoolDefinitionId {
        self.id
    }

    open spec fn numeric_id(&self) -> u64 {
        self.id as u64
    }

    /// A loot pool is valid when it has at least one member.
    open spec fn is_valid(&self) -> bool {
        self.members@.len() > 0
    }

    fn id(&self) -> (id: u64) {
        self.id as u64
    }

    fn validate(&self) -> (valid: bool) {
        !self.members.is_empty()
    }
}

pub struct LootPoolDefinitionDatabase<'db> {
    pools: HashMap<LootPoolDefinitionId, LootPoolDefinition<'db>>,
}

impl<'db> LootPoolDefinitionDatabase<'db> {
    #[verifier::type_invariant]
    spec fn keys_are_ids(&self) -> bool {
        keyed_by_id(self.pools@)
    }

    /// Builds a database from pools in the order they were loaded; a later pool replaces an
    /// earlier one with the same id.
    pub fn from_definitions(definitions: Vec<LootPoolDefinition<'db>>) -> (database: Self)
        ensures
            database.contents() == definitions_by_id(definitions@),
    {
        let mut pools: HashMap<LootPoolDefinitionId, LootPoolDefinition<'db>> = HashMap::new();
        let ghost all = definitions@;
        let mut i: usize = 0;
        let count = definitions.len();
        let mut remaining = definitions;
        proof {
            assert(all.take(0) == Seq::<LootPoolDefinition<'db>>::empty());
        }
        while remaining.len() > 0
            invariant
                0 <= i <= all.len(),
                count == all.len(),
                remaining@ == all.skip(i as int),
                pools@ == definitions_by_id(all.take(i as int)),
            decreases remaining@.len(),
        {
            let definition = remaining.remove(0);
            assert(definition == all[i as int]);
            assert(all.take(i as int + 1).drop_last() == all.take(i as int));
            pools.insert(definition.id, definition);
            i = i + 1;
        }
        assert(all.take(all.len() as int) == all);
        proof {
            lemma_definitions_by_id_keyed(all);
        }
        LootPoolDefinitionDatabase { pools }
    }
}

impl<'db> DataDefinitionDatabase<LootPoolDefinition<'db>> for LootPoolDefinitionDatabase<'db> {
    closed spec fn contents(&self) -> Map<LootPoolDefinitionId, LootPoolDefinition<'db>> {
        self.pools@
    }

    fn validate(&self) -> (loaded: bool) {
        all_definitions_valid(&self.pools)
    }

    fn definition(&self, id: LootPoolDefinitionId) -> (found: Option<&LootPoolDefinition<'db>>) {
        proof {
            use_type_invariant(self);
        }
        self.pools.get(&id)
    }

    fn definitions(&self) -> (all: Vec<&LootPoolDefinition<'db>>) {
        proof {
            use_type_invariant(self);
        }
        list_definitions(&self.pools)
    }

    fn add_definition(&mut self, definition: LootPoolDefinition<'db>) {
        proof {
            use_type_invariant(&*self);
        }
        let mut pools = HashMap::new();
        std::mem::swap(&mut pools, &mut self.pools);
        pools.insert(definition.id, definition);
        self.pools = pools;
    }
}

/// Requirements when dropping loot from a pool; there are none yet.
pub struct LootPoolCriteria {}

impl Default for LootPoolCriteria {
    fn default() -> (criteria: Self) {
        LootPoolCriteria {}
    }
}

#[derive(Clone, Copy)]
pub struct LootPoolItemGenerator;

impl Default for LootPoolItemGenerator {
    fn default() -> (generator: Self) {
        LootPoolItemGenerator
    }
}

/// Something that drops loot when defeated: an enemy, a chest.
pub trait DropSource<'db> {
    /// The loot pool that this source drops from.
    fn loot_pool(&self) -> &LootPoolDefinition<'db>;
}

/// The weights of a list of members, in order.
pub open spec fn loot_weights(members: Seq<LootPoolMember>) -> Seq<u64> {
    members.map_values(|member: LootPoolMember| member.weight)
}

/// What dropping loot from a pool with `members` needs: the weights add up within a `u64`
/// and not to zero, and every member that weighs something names an item definition that
/// the item database holds and of which an item can be made with the default criteria.
pub open spec fn can_drop_from<'db>(
    members: Seq<LootPoolMember<'db>>,
    affix_db: AffixDefinitionDatabase,
    pool_db: AffixPoolDefinitionDatabase<'db>,
    item_db: ItemDefinitionDatabase<'db>,
) -> bool {
    &&& weight_sum(loot_weights(members)) <= u64::MAX
    &&& weights_can_be_sampled(loot_weights(members))
    &&& forall|member: LootPoolMember<'db>|
        #[trigger] members.contains(member) && member.weight > 0 ==> {
            &&& item_db.contents().contains_key(member.item_def.id)
            &&& can_make_item_with(
                item_db.contents()[member.item_def.id],
                default_count_weighting(),
                None,
                None,
                affix_db,
                pool_db,
            )
        }
}

/// What dropping loot from a pool with `members` gives: an item made with the default
/// criteria of the definition, as the item database holds it, of a member that weighs
/// something.
pub open spec fn may_drop<'db>(
    members: Seq<LootPoolMember<'db>>,
    affix_db: AffixDefinitionDatabase,
    pool_db: AffixPoolDefinitionDatabase<'db>,
    item_db: ItemDefinitionDatabase<'db>,
    item: Option<GeneratedItem<'db>>,
) -> bool {
    exists|member: LootPoolMember<'db>, criteria: ItemDefinitionCriteria|
        #![trigger members.contains(member), is_default_item_criteria(criteria)]
        members.contains(member) && member.weight > 0 && item_db.contents().contains_key(member.item_def.id)
            && is_default_item_criteria(criteria)
            && may_make_item(item_db.contents()[member.item_def.id], criteria, affix_db, pool_db, item)
}

/// The weights of `members`, in order.
pub(crate) fn loot_weights_of(members: &Vec<LootPoolMember>) -> (weights: Vec<u64>)
    ensures
        weights@ == loot_weights(members@),
{
    let mut weights: Vec<u64> = Vec::new();
    let mut i: usize = 0;
    while i < members.len()
        invariant
            0 <= i <= members@.len(),
            weights@ == loot_weights(members@.take(i as int)),
        decreases members@.len() - i,
    {
        proof {
            assert(loot_weights(members@.take(i + 1)) == loot_weights(members@.take(i as int)).push(members@[i as int].weight));
        }
        weights.push(members[i].weight);
        i = i + 1;
    }
    proof {
        assert(members@.take(members@.len() as int) == members@);
    }
    weights
}

impl<'db> DataInstanceGenerator<'db, LootPoolDefinition<'db>, Option<GeneratedItem<'db>>, LootPoolCriteria> for LootPoolItemGenerator {
    type DataDependencies = (
        &'db AffixDefinitionDatabase,
        &'db AffixPoolDefinitionDatabase<'db>,
        &'db ItemDefinitionDatabase<'db>,
    );

    open spec fn can_generate(
        &self,
        definition: LootPoolDefinition<'db>,
        criteria: LootPoolCriteria,
        databases: (&'db AffixDefinitionDatabase, &'db AffixPoolDefinitionDatabase<'db>, &'db ItemDefinitionDatabase<'db>),
    ) -> bool {
        can_drop_from(definition.members@, *databases.0, *databases.1, *databases.2)
    }

    open spec fn may_generate(
        &self,
        definition: LootPoolDefinition<'db>,
        criteria: LootPoolCriteria,
        databases: (&'db AffixDefinitionDatabase, &'db AffixPoolDefinitionDatabase<'db>, &'db ItemDefinitionDatabase<'db>),
        instance: Option<GeneratedItem<'db>>,
    ) -> bool {
        may_drop(definition.members@, *databases.0, *databases.1, *databases.2, instance)
    }

    /// Drops an item: picks a member of the pool with probability proportional to its weight
    /// and makes an item, with the default criteria, of its definition as the item database
    /// holds it.
    fn generate(
        &self,
        definition: &'db LootPoolDefinition<'db>,
        _criteria: &LootPoolCriteria,
        dependencies: &(&'db AffixDefinitionDatabase, &'db AffixPoolDefinitionDatabase<'db>, &'db ItemDefinitionDatabase<'db>),
    ) -> (item: Option<GeneratedItem<'db>>) {
        let (affix_db, affix_pool_db, item_db) = *dependencies;
        let weights = loot_weights_of(&definition.members);
        let index = match sample_weighted_index(&weights) {
            Some(index) => index,
            None => {
                return None;
            },
        };
        let member = definition.members[index];
        proof {
            assert(weights@[index as int] == member.weight);
            assert(definition.members@.contains(member));
        }
        let item_definition = match item_db.definition(member.item_def.id) {
            Some(item_definition) => item_definition,
            None => {
                return None;
            },
        };
        let item_generator = ItemGenerator;
        let criteria = ItemDefinitionCriteria::default();
        let item = item_generator.generate(item_definition, &criteria, &(affix_db, affix_pool_db));
        proof {
            assert(is_default_item_criteria(criteria));
        }
        item
    }
}

/// Whether loot can be dropped from a pool with `members`, as [`can_drop_from`] states.
pub fn check_can_drop_from<'db>(
    members: &Vec<LootPoolMember<'db>>,
    affix_db: &AffixDefinitionDatabase,
    pool_db: &AffixPoolDefinitionDatabase<'db>,
    item_db: &ItemDefinitionDatabase<'db>,
) -> (ok: bool)
    ensures
        ok == can_drop_from(members@, *affix_db, *pool_db, *item_db),
{
    let weights = loot_weights_of(members);
    match total_weight(&weights) {
        Some(total) => {
            if total == 0 {
                return false;
            }
        },
        None => {
            return false;
        },
    }
    let default_weighting = ItemDefinitionCriteria::default().affix_count_weighting;
    let mut j: usize = 0;
    while j < members.len()
        invariant
            0 <= j <= members@.len(),
            default_weighting@ == default_count_weighting(),
            forall|k: int|
                0 <= k < j && (#[trigger] members@[k]).weight > 0 ==> {
                    &&& item_db.contents().contains_key(members@[k].item_def.id)
                    &&& can_make_item_with(
                        item_db.contents()[members@[k].item_def.id],
                        default_count_weighting(),
                        None,
                        None,
                        *affix_db,
                        *pool_db,
                    )
                },
        decreases members@.len() - j,
    {
        let member = members[j];
        if member.weight > 0 {
            let fits = match item_db.definition(member.item_def.id) {
                Some(definition) => check_can_make_item(definition, &default_weighting, None, None, affix_db, pool_db),
                None => false,
            };
            if !fits {
                assert(members@.contains(member));
                return false;
            }
        }
        j = j + 1;
    }
    assert forall|member: LootPoolMember<'db>|
        #[trigger] members@.contains(member) && member.weight > 0 implies {
            &&& item_db.contents().contains_key(member.item_def.id)
            &&& can_make_item_with(item_db.contents()[member.item_def.id], default_count_weighting(), None, None, *affix_db, *pool_db)
        } by {
        let k = choose|k: int| 0 <= k < members@.len() && members@[k] == member;
        assert(members@[k].weight > 0);
    }
    true
}

} // verus!
