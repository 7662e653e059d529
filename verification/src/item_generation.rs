//! Making items: an item of a definition either carries the definition's fixed affixes, or
//! rolls a weighted number of affixes out of the definition's affix pools.

use crate::affix::{AffixDefinition, AffixDefinitionDatabase, AffixDefinitionTier, AffixPlacement, AffixTierId};
use crate::affix_generation::{
    AffixGenerationCriteria, AffixGenerator, AffixInstance, GeneratedAffix, allowed_tiers, may_roll_affix,
    tiers_meeting,
};
use crate::affix_pool::{
    AffixPoolDefinition, AffixPoolDefinitionDatabase, AffixPoolDefinitionId,
    AffixPoolGenerationCriteria, AffixPoolGenerator, AffixPoolMember, member_meets,
    member_weights, members_meeting,
};
use crate::data::{DataDefinitionDatabase, DataInstanceGenerator};
use crate::item::{ItemDefinition, ItemInstance, affixes_placed, has_rarity};
use crate::random::{is_hyphenated_v4_uuid, new_guid, sample_weighted_index, weight_sum, weights_can_be_sampled};
use vstd::prelude::*;

verus! {

/// An item as generated, before the stats of its affixes are rolled.
pub type GeneratedItem<'db> = ItemInstance<'db, &'db AffixDefinitionTier>;

pub struct ItemDefinitionCriteria {
    /// How many affixes can this item roll? Stored as tuples, where tuple.0 = number of affixes possible, and tuple.1 = affix weight
    pub affix_count_weighting: Vec<(u8, u64)>,
    pub affix_generation_criteria: AffixGenerationCriteria,
}

/// The affix counts an item rolls by default, with their weights.
pub open spec fn default_count_weighting() -> Seq<(u8, u64)> {
    seq![(1u8, 500u64), (2u8, 300u64), (3u8, 100u64), (4u8, 20u64), (5u8, 5u64), (6u8, 1u64)]
}

impl Default for ItemDefinitionCriteria {
    fn default() -> (criteria: Self)
        ensures
            criteria.affix_count_weighting@ == default_count_weighting(),
            criteria.affix_generation_criteria.allowed_ids is None,
            criteria.affix_generation_criteria.disallowed_ids is None,
            criteria.affix_generation_criteria.placement is None,
            criteria.affix_generation_criteria.maximum_tier is None,
            criteria.affix_generation_criteria.item_level is None,
    {
        let criteria = ItemDefinitionCriteria {
            affix_count_weighting: vec![(1, 500), (2, 300), (3, 100), (4, 20), (5, 5), (6, 1)],
            affix_generation_criteria: AffixGenerationCriteria::default(),
        };
        assert(criteria.affix_count_weighting@ == default_count_weighting());
        criteria
    }
}

/// The weights of the affix counts, in order.
pub open spec fn count_weights(weighting: Seq<(u8, u64)>) -> Seq<u64> {
    weighting.map_values(|pair: (u8, u64)| pair.1)
}

/// The members of the pools, as the pool database holds them, one pool after another.
pub open spec fn combined_members<'db>(
    pools: Seq<&'db AffixPoolDefinition<'db>>,
    contents: Map<AffixPoolDefinitionId, AffixPoolDefinition<'db>>,
) -> Seq<AffixPoolMember<'db>>
    decreases pools.len(),
{
    if pools.len() == 0 {
        Seq::empty()
    } else {
        combined_members(pools.drop_last(), contents) + contents[pools.last().id].members@
    }
}

/// Every pool of the list is held by the pool database under its id.
pub open spec fn pools_are_loaded<'db>(
    pools: Seq<&'db AffixPoolDefinition<'db>>,
    contents: Map<AffixPoolDefinitionId, AffixPoolDefinition<'db>>,
) -> bool {
    forall|i: int| 0 <= i < pools.len() ==> contents.contains_key((#[trigger] pools[i]).id)
}

/// The affix generator gives an affix for each of the definitions: each has a tier that the
/// criteria's item level allows.
pub open spec fn all_have_allowed_tiers(
    definitions: Seq<&AffixDefinition>,
    maximum_tier: Option<AffixTierId>,
    item_level: Option<u8>,
) -> bool {
    forall|i: int|
        0 <= i < definitions.len() ==> allowed_tiers(*(#[trigger] definitions[i]), maximum_tier, item_level).len() > 0
}

/// An affix as rolled from `members`: the definition, as the database holds it, of a member
/// that weighs something, at a tier that the criteria allow.
pub open spec fn rolled_from_members<'db>(
    affix: GeneratedAffix<'db>,
    members: Seq<AffixPoolMember<'db>>,
    affix_db: AffixDefinitionDatabase,
    criteria: AffixGenerationCriteria,
) -> bool {
    &&& exists|member: AffixPoolMember<'db>|
        #[trigger] members.contains(member) && member.weight > 0
            && affix_db.contents().contains_key(member.affix_def.id)
            && *affix.definition == affix_db.contents()[member.affix_def.id]
    &&& may_roll_affix(*affix.definition, criteria, Some(affix))
}

/// Every draw from `members` gives an affix: some member weighs something, and the
/// definition of each member that does has a tier that the criteria allow.
pub open spec fn draws_always_give_affix<'db>(
    members: Seq<AffixPoolMember<'db>>,
    affix_db: AffixDefinitionDatabase,
    criteria: AffixGenerationCriteria,
) -> bool {
    &&& weights_can_be_sampled(member_weights(members))
    &&& forall|member: AffixPoolMember<'db>|
        #[trigger] members.contains(member) && member.weight > 0
            ==> tiers_meeting(affix_db.contents()[member.affix_def.id], criteria).len() > 0
}

/// What rolling affixes from pools needs: the affix counts can be drawn from, every pool is
/// loaded, and the combined members can be drawn from with their affixes in the database.
pub open spec fn pools_can_be_rolled<'db>(
    definition: ItemDefinition<'db>,
    weighting: Seq<(u8, u64)>,
    affix_db: AffixDefinitionDatabase,
    pool_db: AffixPoolDefinitionDatabase<'db>,
) -> bool {
    let members = combined_members(definition.affix_pools@, pool_db.contents());
    &&& weight_sum(count_weights(weighting)) <= u64::MAX
    &&& weights_can_be_sampled(count_weights(weighting))
    &&& pools_are_loaded(definition.affix_pools@, pool_db.contents())
    &&& weight_sum(member_weights(members)) <= u64::MAX
    &&& forall|member: AffixPoolMember<'db>|
        #[trigger] members.contains(member) && member.weight > 0
            ==> affix_db.contents().contains_key(member.affix_def.id)
}

/// The affixes rolled from pools: as many as a count drawn from the weighting (fewer where a
/// draw gave nothing), each rolled from the combined members.
pub open spec fn rolled_from_pools<'db>(
    affixes: Seq<GeneratedAffix<'db>>,
    definition: ItemDefinition<'db>,
    criteria: ItemDefinitionCriteria,
    affix_db: AffixDefinitionDatabase,
    pool_db: AffixPoolDefinitionDatabase<'db>,
) -> bool {
    let members = combined_members(definition.affix_pools@, pool_db.contents());
    let weighting = criteria.affix_count_weighting@;
    &&& exists|k: int|
        0 <= k < weighting.len() && (#[trigger] weighting[k]).1 > 0 && affixes.len() <= weighting[k].0
            && (draws_always_give_affix(members, affix_db, criteria.affix_generation_criteria)
            ==> affixes.len() == weighting[k].0)
    &&& forall|i: int|
        0 <= i < affixes.len() ==> rolled_from_members(
            #[trigger] affixes[i],
            members,
            affix_db,
            criteria.affix_generation_criteria,
        )
}

/// The affixes of the fixed affix definitions, one for each, in order, each at a tier that
/// the criteria allow.
pub open spec fn rolled_from_fixed<'db>(
    affixes: Seq<GeneratedAffix<'db>>,
    fixed: Seq<&'db AffixDefinition>,
    criteria: AffixGenerationCriteria,
) -> bool {
    &&& affixes.len() == fixed.len()
    &&& forall|i: int|
        0 <= i < affixes.len() ==> *(#[trigger] affixes[i]).definition == *fixed[i] && may_roll_affix(
            *fixed[i],
            criteria,
            Some(affixes[i]),
        )
}

pub struct ItemGenerator;

/// Pool criteria that let every member through.
pub open spec fn lets_every_member_through(criteria: AffixPoolGenerationCriteria) -> bool {
    criteria.allowed_ids is None && criteria.disallowed_ids is None && criteria.placement is None
}

proof fn lemma_every_member_meets<'db>(members: Seq<AffixPoolMember<'db>>, criteria: AffixPoolGenerationCriteria)
    requires
        lets_every_member_through(criteria),
    ensures
        members_meeting(members, criteria) == members,
    decreases members.len(),
{
    reveal(Seq::filter);
    if members.len() > 0 {
        lemma_every_member_meets(members.drop_last(), criteria);
        assert(member_meets(members.last(), criteria));
        assert(members.drop_last().push(members.last()) == members);
    }
}

/// The weights of the affix counts, in order.
pub(crate) fn count_weights_of(weighting: &Vec<(u8, u64)>) -> (weights: Vec<u64>)
    ensures
        weights@ == count_weights(weighting@),
{
    let mut weights: Vec<u64> = Vec::new();
    let mut i: usize = 0;
    while i < weighting.len()
        invariant
            0 <= i <= weighting@.len(),
            weights@ == count_weights(weighting@.take(i as int)),
        decreases weighting@.len() - i,
    {
        proof {
            assert(count_weights(weighting@.take(i + 1)) == count_weights(weighting@.take(i as int)).push(weighting@[i as int].1));
        }
        weights.push(weighting[i].1);
        i = i + 1;
    }
    proof {
        assert(weighting@.take(weighting@.len() as int) == weighting@);
    }
    weights
}

/// The members of the definition's affix pools, as the pool database holds them, one pool
/// after another.
pub(crate) fn gather_pool_members<'db>(
    definition: &ItemDefinition<'db>,
    pool_db: &AffixPoolDefinitionDatabase<'db>,
) -> (members: Vec<AffixPoolMember<'db>>)
    requires
        pools_are_loaded(definition.affix_pools@, pool_db.contents()),
    ensures
        members@ == combined_members(definition.affix_pools@, pool_db.contents()),
{
    let ghost pools = definition.affix_pools@;
    let ghost contents = pool_db.contents();
    let mut members: Vec<AffixPoolMember<'db>> = Vec::new();
    let mut i: usize = 0;
    while i < definition.affix_pools.len()
        invariant
            0 <= i <= pools.len(),
            pools == definition.affix_pools@,
            contents == pool_db.contents(),
            pools_are_loaded(pools, contents),
            members@ == combined_members(pools.take(i as int), contents),
        decreases pools.len() - i,
    {
        assert(pools.take(i + 1).drop_last() == pools.take(i as int));
        assert(contents.contains_key(pools[i as int].id));
        match pool_db.definition(definition.affix_pools[i].id) {
            Some(pool) => {
                let ghost before = members@;
                let mut j: usize = 0;
                while j < pool.members.len()
                    invariant
                        0 <= j <= pool.members@.len(),
                        members@ == before + pool.members@.take(j as int),
                    decreases pool.members@.len() - j,
                {
                    assert(pool.members@.take(j + 1) == pool.members@.take(j as int).push(pool.members@[j as int]));
                    members.push(pool.members[j]);
                    j = j + 1;
                }
                assert(pool.members@.take(pool.members@.len() as int) == pool.members@);
            },
            None => {},
        }
        i = i + 1;
    }
    assert(pools.take(pools.len() as int) == pools);
    members
}

/// The affixes of an item whose definition has fixed affixes: one of each, in order.
fn generate_from_fixed_affixes<'db>(
    criteria: &ItemDefinitionCriteria,
    definition: &'db ItemDefinition<'db>,
) -> (affixes: Vec<GeneratedAffix<'db>>)
    requires
        all_have_allowed_tiers(
            definition.fixed_affixes@,
            criteria.affix_generation_criteria.maximum_tier,
            criteria.affix_generation_criteria.item_level,
        ),
    ensures
        rolled_from_fixed(affixes@, definition.fixed_affixes@, criteria.affix_generation_criteria),
{
    let mut affixes: Vec<GeneratedAffix<'db>> = Vec::new();
    let affix_generator = AffixGenerator {};
    let affix_criteria = &criteria.affix_generation_criteria;
    let mut i: usize = 0;
    while i < definition.fixed_affixes.len()
        invariant
            0 <= i <= definition.fixed_affixes@.len(),
            affix_criteria == &criteria.affix_generation_criteria,
            all_have_allowed_tiers(
            definition.fixed_affixes@,
            criteria.affix_generation_criteria.maximum_tier,
            criteria.affix_generation_criteria.item_level,
        ),
            affixes@.len() == i,
            forall|k: int|
                0 <= k < i ==> *(#[trigger] affixes@[k]).definition == *definition.fixed_affixes@[k]
                    && may_roll_affix(*definition.fixed_affixes@[k], criteria.affix_generation_criteria, Some(affixes@[k])),
        decreases definition.fixed_affixes@.len() - i,
    {
        let fixed_affix = definition.fixed_affixes[i];
        assert(tiers_meeting(*definition.fixed_affixes@[i as int], criteria.affix_generation_criteria).len() > 0);
        match affix_generator.generate(fixed_affix, affix_criteria, &()) {
            Some(affix_instance) => {
                affixes.push(affix_instance);
            },
            None => {},
        }
        i = i + 1;
    }
    affixes
}

/// The affixes of an item whose definition has no fixed affixes: a count drawn from the
/// weighting, then that many draws from the combined members of its pools, each followed by
/// a roll of the drawn definition. A draw that gives nothing is skipped.
fn generate_from_affix_pool<'db>(
    criteria: &ItemDefinitionCriteria,
    definition: &'db ItemDefinition<'db>,
    affix_db: &'db AffixDefinitionDatabase,
    affix_pool_db: &'db AffixPoolDefinitionDatabase<'db>,
) -> (affixes: Vec<GeneratedAffix<'db>>)
    requires
        pools_can_be_rolled(*definition, criteria.affix_count_weighting@, *affix_db, *affix_pool_db),
    ensures
        rolled_from_pools(affixes@, *definition, *criteria, *affix_db, *affix_pool_db),
{
    let ghost weighting = criteria.affix_count_weighting@;
    let weights = count_weights_of(&criteria.affix_count_weighting);
    let k = match sample_weighted_index(&weights) {
        Some(k) => k,
        None => {
            return Vec::new();
        },
    };
    assert(weights@[k as int] == weighting[k as int].1);
    let affix_count = criteria.affix_count_weighting[k].0;

    let affix_pool_members = gather_pool_members(definition, affix_pool_db);
    let ghost members = affix_pool_members@;
    let pool = AffixPoolDefinition::with_members(affix_pool_members);
    let affix_generator = AffixGenerator {};
    let affix_pool_generator = AffixPoolGenerator {};
    let pool_criteria = AffixPoolGenerationCriteria::default();
    proof {
        lemma_every_member_meets(members, pool_criteria);
    }
    let affix_criteria = &criteria.affix_generation_criteria;

    let mut affixes: Vec<GeneratedAffix<'db>> = Vec::new();
    let mut drawn: u8 = 0;
    while drawn < affix_count
        invariant
            0 <= drawn <= affix_count,
            pool.members@ == members,
            members == combined_members(definition.affix_pools@, affix_pool_db.contents()),
            members_meeting(members, pool_criteria) == members,
            pools_can_be_rolled(*definition, criteria.affix_count_weighting@, *affix_db, *affix_pool_db),
            affix_criteria == &criteria.affix_generation_criteria,
            affixes@.len() <= drawn,
            draws_always_give_affix(members, *affix_db, criteria.affix_generation_criteria) ==> affixes@.len() == drawn,
            forall|i: int|
                0 <= i < affixes@.len() ==> rolled_from_members(
                    #[trigger] affixes@[i],
                    members,
                    *affix_db,
                    criteria.affix_generation_criteria,
                ),
        decreases affix_count - drawn,
    {
        match affix_pool_generator.generate(&pool, &pool_criteria, &affix_db) {
            Some(affix_def) => {
                match affix_generator.generate(affix_def, affix_criteria, &()) {
                    Some(affix_instance) => {
                        let ghost before = affixes@;
                        affixes.push(affix_instance);
                        proof {
                            assert forall|i: int| 0 <= i < affixes@.len() implies rolled_from_members(
                                #[trigger] affixes@[i],
                                members,
                                *affix_db,
                                criteria.affix_generation_criteria,
                            ) by {
                                if i < before.len() {
                                    assert(affixes@[i] == before[i]);
                                }
                            }
                        }
                    },
                    None => {},
                }
            },
            None => {},
        }
        drawn = drawn + 1;
    }
    affixes
}

/// What making an item of `definition` needs: with fixed affixes, a tier of each that the
/// criteria allow; without, pools that can be rolled.
pub open spec fn can_make_item<'db>(
    definition: ItemDefinition<'db>,
    criteria: ItemDefinitionCriteria,
    affix_db: AffixDefinitionDatabase,
    pool_db: AffixPoolDefinitionDatabase<'db>,
) -> bool {
    can_make_item_with(
        definition,
        criteria.affix_count_weighting@,
        criteria.affix_generation_criteria.maximum_tier,
        criteria.affix_generation_criteria.item_level,
        affix_db,
        pool_db,
    )
}

/// What making an item of `definition` needs, for criteria with these affix counts, this
/// maximum tier and this item level.
pub open spec fn can_make_item_with<'db>(
    definition: ItemDefinition<'db>,
    weighting: Seq<(u8, u64)>,
    maximum_tier: Option<AffixTierId>,
    item_level: Option<u8>,
    affix_db: AffixDefinitionDatabase,
    pool_db: AffixPoolDefinitionDatabase<'db>,
) -> bool {
    if definition.fixed_affixes@.len() > 0 {
        all_have_allowed_tiers(definition.fixed_affixes@, maximum_tier, item_level)
    } else {
        pools_can_be_rolled(definition, weighting, affix_db, pool_db)
    }
}

/// Criteria as `ItemDefinitionCriteria::default` makes them.
pub open spec fn is_default_item_criteria(criteria: ItemDefinitionCriteria) -> bool {
    &&& criteria.affix_count_weighting@ == default_count_weighting()
    &&& criteria.affix_generation_criteria.allowed_ids is None
    &&& criteria.affix_generation_criteria.disallowed_ids is None
    &&& criteria.affix_generation_criteria.placement is None
    &&& criteria.affix_generation_criteria.maximum_tier is None
    &&& criteria.affix_generation_criteria.item_level is None
}

/// What making an item of `definition` gives: an item of it with a fresh random id, whose
/// affixes are one of each fixed affix where the definition has any, else rolled from its
/// pools.
pub open spec fn may_make_item<'db>(
    definition: ItemDefinition<'db>,
    criteria: ItemDefinitionCriteria,
    affix_db: AffixDefinitionDatabase,
    pool_db: AffixPoolDefinitionDatabase<'db>,
    item: Option<GeneratedItem<'db>>,
) -> bool {
    item matches Some(it) && {
        &&& *it.definition == definition
        &&& is_hyphenated_v4_uuid(it.guid@)
        &&& if definition.fixed_affixes@.len() > 0 {
            rolled_from_fixed(it.affixes@, definition.fixed_affixes@, criteria.affix_generation_criteria)
        } else {
            rolled_from_pools(it.affixes@, definition, criteria, affix_db, pool_db)
        }
    }
}

impl<'db> DataInstanceGenerator<'db, ItemDefinition<'db>, Option<GeneratedItem<'db>>, ItemDefinitionCriteria> for ItemGenerator {
    type DataDependencies = (&'db AffixDefinitionDatabase, &'db AffixPoolDefinitionDatabase<'db>);

    open spec fn can_generate(
        &self,
        definition: ItemDefinition<'db>,
        criteria: ItemDefinitionCriteria,
        databases: (&'db AffixDefinitionDatabase, &'db AffixPoolDefinitionDatabase<'db>),
    ) -> bool {
        can_make_item(definition, criteria, *databases.0, *databases.1)
    }

    open spec fn may_generate(
        &self,
        definition: ItemDefinition<'db>,
        criteria: ItemDefinitionCriteria,
        databases: (&'db AffixDefinitionDatabase, &'db AffixPoolDefinitionDatabase<'db>),
        instance: Option<GeneratedItem<'db>>,
    ) -> bool {
        may_make_item(definition, criteria, *databases.0, *databases.1, instance)
    }

    /// Makes an item of `definition`, with a fresh random id: one affix of each fixed affix
    /// where the definition has any, else affixes rolled from its pools.
    fn generate(
        &self,
        definition: &'db ItemDefinition<'db>,
        criteria: &ItemDefinitionCriteria,
        dependencies: &(&'db AffixDefinitionDatabase, &'db AffixPoolDefinitionDatabase<'db>),
    ) -> (item: Option<GeneratedItem<'db>>) {
        let (affix_db, affix_pool_db) = *dependencies;
        let has_fixed_affixes = !definition.fixed_affixes.is_empty();
        let affixes = if has_fixed_affixes {
            generate_from_fixed_affixes(criteria, definition)
        } else {
            generate_from_affix_pool(criteria, definition, affix_db, affix_pool_db)
        };
        Some(ItemInstance { guid: new_guid(), definition, affixes })
    }
}

/// Every affix count of the weighting is at most `limit`.
pub open spec fn counts_at_most(weighting: Seq<(u8, u64)>, limit: int) -> bool {
    forall|k: int| 0 <= k < weighting.len() ==> (#[trigger] weighting[k]).0 <= limit
}

/// An item made with a weighting whose counts are at most three has a rarity: it is fabled,
/// or it carries at most three affixes, so at most three prefixes and three suffixes.
pub proof fn lemma_generated_item_has_rarity<'db>(
    definition: ItemDefinition<'db>,
    criteria: ItemDefinitionCriteria,
    affix_db: AffixDefinitionDatabase,
    pool_db: AffixPoolDefinitionDatabase<'db>,
    item: GeneratedItem<'db>,
)
    requires
        counts_at_most(criteria.affix_count_weighting@, 3),
        may_make_item(definition, criteria, affix_db, pool_db, Some(item)),
    ensures
        has_rarity(
            item.definition.fixed_affixes@.len(),
            affixes_placed(item.affixes@, AffixPlacement::Prefix).len(),
            affixes_placed(item.affixes@, AffixPlacement::Suffix).len(),
        ),
{
    if definition.fixed_affixes@.len() == 0 {
        let weighting = criteria.affix_count_weighting@;
        let members = combined_members(definition.affix_pools@, pool_db.contents());
        let k = choose|k: int|
            0 <= k < weighting.len() && (#[trigger] weighting[k]).1 > 0 && item.affixes@.len() <= weighting[k].0
                && (draws_always_give_affix(members, affix_db, criteria.affix_generation_criteria)
                ==> item.affixes@.len() == weighting[k].0);
        assert(weighting[k].0 <= 3);
        item.affixes@.lemma_filter_len(|a: AffixInstance<'db, &'db AffixDefinitionTier>| a.definition.placement == AffixPlacement::Prefix);
        item.affixes@.lemma_filter_len(|a: AffixInstance<'db, &'db AffixDefinitionTier>| a.definition.placement == AffixPlacement::Suffix);
    }
}

/// A running sum of weights never goes past the whole sum.
proof fn lemma_weight_sum_prefix(weights: Seq<u64>, i: int)
    requires
        0 <= i <= weights.len(),
    ensures
        weight_sum(weights.take(i)) <= weight_sum(weights),
    decreases weights.len() - i,
{
    if i < weights.len() {
        lemma_weight_sum_prefix(weights, i + 1);
        assert(weights.take(i + 1).drop_last() == weights.take(i));
    } else {
        assert(weights.take(i) == weights);
    }
}

/// The sum of the weights, or `None` when it does not fit in a `u64`.
pub fn total_weight(weights: &Vec<u64>) -> (total: Option<u64>)
    ensures
        total is None <==> weight_sum(weights@) > u64::MAX,
        total matches Some(t) ==> t == weight_sum(weights@),
{
    let mut sum: u64 = 0;
    let mut i: usize = 0;
    while i < weights.len()
        invariant
            0 <= i <= weights@.len(),
            sum == weight_sum(weights@.take(i as int)),
        decreases weights@.len() - i,
    {
        assert(weights@.take(i + 1).drop_last() == weights@.take(i as int));
        match sum.checked_add(weights[i]) {
            Some(next) => {
                sum = next;
            },
            None => {
                proof {
                    lemma_weight_sum_prefix(weights@, i + 1);
                }
                return None;
            },
        }
        i = i + 1;
    }
    assert(weights@.take(weights@.len() as int) == weights@);
    Some(sum)
}

/// Whether the definition's pools can be rolled with these affix counts, as
/// [`pools_can_be_rolled`] states.
pub fn check_pools_can_be_rolled<'db>(
    definition: &ItemDefinition<'db>,
    weighting: &Vec<(u8, u64)>,
    affix_db: &AffixDefinitionDatabase,
    pool_db: &AffixPoolDefinitionDatabase<'db>,
) -> (ok: bool)
    ensures
        ok == pools_can_be_rolled(*definition, weighting@, *affix_db, *pool_db),
{
    let counts = count_weights_of(weighting);
    let count_total = match total_weight(&counts) {
        Some(total) => total,
        None => {
            return false;
        },
    };
    if count_total == 0 {
        return false;
    }
    let mut i: usize = 0;
    while i < definition.affix_pools.len()
        invariant
            0 <= i <= definition.affix_pools@.len(),
            forall|k: int| 0 <= k < i ==> pool_db.contents().contains_key((#[trigger] definition.affix_pools@[k]).id),
        decreases definition.affix_pools@.len() - i,
    {
        if pool_db.definition(definition.affix_pools[i].id).is_none() {
            assert(!pool_db.contents().contains_key(definition.affix_pools@[i as int].id));
            return false;
        }
        i = i + 1;
    }
    let members = gather_pool_members(definition, pool_db);
    let weights = AffixPoolGenerator::weights_of(&members);
    if total_weight(&weights).is_none() {
        return false;
    }
    let mut j: usize = 0;
    while j < members.len()
        invariant
            0 <= j <= members@.len(),
            members@ == combined_members(definition.affix_pools@, pool_db.contents()),
            forall|k: int|
                0 <= k < j && (#[trigger] members@[k]).weight > 0 ==> affix_db.contents().contains_key(members@[k].affix_def.id),
        decreases members@.len() - j,
    {
        let member = members[j];
        if member.weight > 0 && affix_db.definition(member.affix_def.id).is_none() {
            assert(members@.contains(member));
            return false;
        }
        j = j + 1;
    }
    assert forall|member: AffixPoolMember<'db>|
        #[trigger] members@.contains(member) && member.weight > 0 implies affix_db.contents().contains_key(member.affix_def.id) by {
        let k = choose|k: int| 0 <= k < members@.len() && members@[k] == member;
        assert(members@[k].weight > 0);
    }
    true
}

/// Whether an item of the definition can be made with these affix counts, this maximum tier
/// and this item level, as [`can_make_item_with`] states.
pub fn check_can_make_item<'db>(
    definition: &ItemDefinition<'db>,
    weighting: &Vec<(u8, u64)>,
    maximum_tier: Option<AffixTierId>,
    item_level: Option<u8>,
    affix_db: &AffixDefinitionDatabase,
    pool_db: &AffixPoolDefinitionDatabase<'db>,
) -> (ok: bool)
    ensures
        ok == can_make_item_with(*definition, weighting@, maximum_tier, item_level, *affix_db, *pool_db),
{
    if definition.fixed_affixes.is_empty() {
        return check_pools_can_be_rolled(definition, weighting, affix_db, pool_db);
    }
    let mut i: usize = 0;
    while i < definition.fixed_affixes.len()
        invariant
            0 <= i <= definition.fixed_affixes@.len(),
            forall|k: int|
                0 <= k < i ==> allowed_tiers(*(#[trigger] definition.fixed_affixes@[k]), maximum_tier, item_level).len() > 0,
        decreases definition.fixed_affixes@.len() - i,
    {
        let tiers = match maximum_tier {
            Some(maximum) => definition.fixed_affixes[i].tiers_to(&maximum),
            None => definition.fixed_affixes[i].tiers(),
        };
        let eligible = crate::affix_generation::filter_tiers_for_level(&tiers, item_level);
        if eligible.len() == 0 {
            assert(crate::affix::tier_values(eligible@).len() == 0);
            return false;
        }
        assert(crate::affix::tier_values(eligible@).len() == eligible@.len());
        i = i + 1;
    }
    true
}

} // verus!
