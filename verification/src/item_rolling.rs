//! Rolling an item straight from its definition, with affix criteria passed to the pools:
//! each affix drawn from the pools is excluded from the draws after it, so that no affix
//! definition appears twice on one item.

use crate::affix::{AffixDefinition, AffixDefinitionDatabase, AffixDefinitionId, AffixDefinitionTier};
use crate::affix_generation::{
    allowed_tiers, AffixGenerationCriteria, AffixInstance, GeneratedAffix, choose_tier, filter_tiers_for_level,
    is_affix_of, meets_criteria, meets_criteria_exec, tiers_meeting,
};
use crate::affix_pool::{AffixPoolDefinition, AffixPoolDefinitionDatabase, AffixPoolMember, member_weights};
use crate::data::DataDefinitionDatabase;
use crate::item::{ItemClassification, ItemDefinition, ItemDefinitionDatabase, ItemDefinitionId};
use crate::loot_pool::{LootPoolCriteria, LootPoolDefinition, LootPoolMember, loot_weights};
use crate::item_generation::{
    ItemDefinitionCriteria, combined_members, count_weights, default_count_weighting,
    check_pools_can_be_rolled, gather_pool_members, pools_are_loaded, pools_can_be_rolled, total_weight,
};
use crate::random::{sample_weighted_index, weight_sum, weights_can_be_sampled};
use std::collections::HashSet;
use vstd::prelude::*;

verus! {

broadcast use vstd::std_specs::hash::group_hash_axioms;

/// The members of a pool, in order, whose affixes meet the criteria.
pub open spec fn members_meeting_affix_criteria<'db>(
    members: Seq<AffixPoolMember<'db>>,
    criteria: AffixGenerationCriteria,
) -> Seq<AffixPoolMember<'db>> {
    members.filter(|member: AffixPoolMember<'db>| meets_criteria(*member.affix_def, criteria))
}

/// What drawing from a pool with the affix criteria needs: the weights of the members that
/// meet them add up within a `u64`, and every such member that weighs something has its
/// affix in the database.
pub open spec fn can_roll_from<'db>(
    members: Seq<AffixPoolMember<'db>>,
    criteria: AffixGenerationCriteria,
    affix_db: AffixDefinitionDatabase,
) -> bool {
    let meeting = members_meeting_affix_criteria(members, criteria);
    &&& weight_sum(member_weights(meeting)) <= u64::MAX
    &&& forall|member: AffixPoolMember<'db>|
        #[trigger] meeting.contains(member) && member.weight > 0
            ==> affix_db.contents().contains_key(member.affix_def.id)
}

/// An affix rolled from `members` with the criteria: the definition, as the database holds
/// it, of a member that meets them and weighs something, at a tier that they allow.
pub open spec fn rolled_with_criteria<'db>(
    affix: GeneratedAffix<'db>,
    members: Seq<AffixPoolMember<'db>>,
    criteria: AffixGenerationCriteria,
    affix_db: AffixDefinitionDatabase,
) -> bool {
    &&& exists|member: AffixPoolMember<'db>|
        #[trigger] members_meeting_affix_criteria(members, criteria).contains(member)
            && member.weight > 0
            && affix_db.contents().contains_key(member.affix_def.id)
            && *affix.definition == affix_db.contents()[member.affix_def.id]
            && affix.definition.id == member.affix_def.id
    &&& exists|tier: AffixDefinitionTier|
        #![trigger is_affix_of(affix, *affix.definition, tier)]
        tiers_meeting(*affix.definition, criteria).contains(tier) && is_affix_of(affix, *affix.definition, tier)
}

/// Every draw gives an affix: some member that meets the criteria weighs something, and the
/// definition of each such member has a tier that they allow.
pub open spec fn rolls_always_give_affix<'db>(
    members: Seq<AffixPoolMember<'db>>,
    criteria: AffixGenerationCriteria,
    affix_db: AffixDefinitionDatabase,
) -> bool {
    let meeting = members_meeting_affix_criteria(members, criteria);
    &&& weights_can_be_sampled(member_weights(meeting))
    &&& forall|member: AffixPoolMember<'db>|
        #[trigger] meeting.contains(member) && member.weight > 0
            ==> tiers_meeting(affix_db.contents()[member.affix_def.id], criteria).len() > 0
}

/// The members of `members`, in order, whose affixes meet the criteria.
fn filter_by_affix_criteria<'db>(
    members: &Vec<AffixPoolMember<'db>>,
    criteria: &AffixGenerationCriteria,
) -> (filtered: Vec<AffixPoolMember<'db>>)
    ensures
        filtered@ == members_meeting_affix_criteria(members@, *criteria),
{
    let mut filtered: Vec<AffixPoolMember<'db>> = Vec::new();
    let mut i: usize = 0;
    while i < members.len()
        invariant
            0 <= i <= members@.len(),
            filtered@ == members_meeting_affix_criteria(members@.take(i as int), *criteria),
        decreases members@.len() - i,
    {
        let member = members[i];
        proof {
            assert(members@.take(i + 1) == members@.take(i as int).push(member));
            members@.take(i as int).lemma_filter_push(member, |m: AffixPoolMember<'db>| meets_criteria(*m.affix_def, *criteria));
        }
        if meets_criteria_exec(member.affix_def, criteria) {
            filtered.push(member);
        }
        i = i + 1;
    }
    proof {
        assert(members@.take(members@.len() as int) == members@);
    }
    filtered
}

impl<'db> AffixPoolDefinition<'db> {
    /// Rolls an affix from the pool: a member whose affix meets the criteria, drawn with
    /// probability proportional to its weight, at a random tier of its definition, as the
    /// database holds it, that the criteria allow. Returns `None` if no such member weighs
    /// anything, or if the drawn definition has no tier that the criteria allow.
    pub fn generate(
        &self,
        affix_database: &'db AffixDefinitionDatabase,
        criteria: &AffixGenerationCriteria,
    ) -> (affix: Option<GeneratedAffix<'db>>)
        requires
            can_roll_from(self.members@, *criteria, *affix_database),
        ensures
            !weights_can_be_sampled(member_weights(members_meeting_affix_criteria(self.members@, *criteria))) ==> affix is None,
            rolls_always_give_affix(self.members@, *criteria, *affix_database) ==> affix is Some,
            affix matches Some(a) ==> rolled_with_criteria(a, self.members@, *criteria, *affix_database),
    {
        let filtered = filter_by_affix_criteria(&self.members, criteria);
        let weights = crate::affix_pool::AffixPoolGenerator::weights_of(&filtered);
        let index = match sample_weighted_index(&weights) {
            Some(index) => index,
            None => {
                return None;
            },
        };
        let member = filtered[index];
        proof {
            assert(filtered@.contains(member));
            assert(member.weight == weights@[index as int]);
        }
        let affix_definition = affix_database.definition(member.affix_def.id).unwrap();
        proof {
            assert(members_meeting_affix_criteria(self.members@, *criteria).contains(member));
            assert(*affix_definition == affix_database.contents()[member.affix_def.id]);
        }
        let tiers = match criteria.maximum_tier {
            Some(maximum) => affix_definition.tiers_to(&maximum),
            None => affix_definition.tiers(),
        };
        let eligible = filter_tiers_for_level(&tiers, criteria.item_level);
        match choose_tier(&eligible) {
            Some(tier) => {
                let affix = AffixInstance { definition: affix_definition, tier: tier.tier, stats: tier };
                assert(is_affix_of(affix, *affix_definition, *tier));
                Some(affix)
            },
            None => None,
        }
    }
}

/// An item rolled straight from its definition: which definition, its classification, and
/// the affixes it rolled.
#[derive(Debug)]
pub struct Item<'db> {
    pub definition_id: ItemDefinitionId,
    pub classification: ItemClassification,
    pub affixes: Vec<GeneratedAffix<'db>>,
}

/// No two of the affixes share a definition id.
pub open spec fn distinct_definitions<'db>(affixes: Seq<GeneratedAffix<'db>>) -> bool {
    forall|i: int, j: int|
        0 <= i < j < affixes.len() ==> (#[trigger] affixes[i]).definition.id != (#[trigger] affixes[j]).definition.id
}

/// Criteria that let every affix through except those with the listed ids.
pub open spec fn excluding(disallowed: HashSet<AffixDefinitionId>) -> AffixGenerationCriteria {
    AffixGenerationCriteria {
        allowed_ids: None,
        disallowed_ids: Some(disallowed),
        placement: None,
        maximum_tier: None,
        item_level: None,
    }
}

/// An affix rolled from `members` with no other requirement: the definition, as the
/// database holds it, of a member that weighs something, at any tier with no level
/// requirement.
pub open spec fn rolled_from_any_member<'db>(
    affix: GeneratedAffix<'db>,
    members: Seq<AffixPoolMember<'db>>,
    affix_db: AffixDefinitionDatabase,
) -> bool {
    &&& exists|member: AffixPoolMember<'db>|
        #[trigger] members.contains(member) && member.weight > 0
            && affix_db.contents().contains_key(member.affix_def.id)
            && *affix.definition == affix_db.contents()[member.affix_def.id]
            && affix.definition.id == member.affix_def.id
    &&& exists|tier: AffixDefinitionTier|
        #![trigger is_affix_of(affix, *affix.definition, tier)]
        allowed_tiers(*affix.definition, None, None).contains(tier) && is_affix_of(affix, *affix.definition, tier)
}

/// Every roll of a member that weighs something gives an affix: the definition that the
/// database holds for it has a tier with no level requirement.
pub open spec fn every_roll_gives_affix<'db>(members: Seq<AffixPoolMember<'db>>, affix_db: AffixDefinitionDatabase) -> bool {
    forall|member: AffixPoolMember<'db>|
        #[trigger] members.contains(member) && member.weight > 0
            ==> allowed_tiers(affix_db.contents()[member.affix_def.id], None, None).len() > 0
}

/// The affix of every member that weighs something is among the affixes, by id.
pub open spec fn covers_weighted_affixes<'db>(affixes: Seq<GeneratedAffix<'db>>, members: Seq<AffixPoolMember<'db>>) -> bool {
    forall|member: AffixPoolMember<'db>|
        #[trigger] members.contains(member) && member.weight > 0 ==> exists|i: int|
            0 <= i < affixes.len() && (#[trigger] affixes[i]).definition.id == member.affix_def.id
}

/// An item rolled straight from `definition` with these affix counts: its definition's id
/// and classification, no affix definition twice, each affix rolled from a member of the
/// combined pools that weighs something, and for some drawn count `k` (of weight above 0)
/// at most `k` affixes. When every such member's roll gives an affix, the rolls stop short of
/// `k` only once the affix of every such member is on the item.
pub open spec fn rolled_item<'db>(
    item: Item<'db>,
    definition: ItemDefinition<'db>,
    weighting: Seq<(u8, u64)>,
    affix_db: AffixDefinitionDatabase,
    pool_db: AffixPoolDefinitionDatabase<'db>,
) -> bool {
    let members = combined_members(definition.affix_pools@, pool_db.contents());
    &&& item.definition_id == definition.id
    &&& item.classification == definition.classification
    &&& distinct_definitions(item.affixes@)
    &&& exists|k: int|
        0 <= k < weighting.len() && (#[trigger] weighting[k]).1 > 0 && item.affixes@.len() <= weighting[k].0
            && (every_roll_gives_affix(members, affix_db) ==> item.affixes@.len() == weighting[k].0
            || covers_weighted_affixes(item.affixes@, members))
    &&& forall|i: int|
        0 <= i < item.affixes@.len() ==> rolled_from_any_member(#[trigger] item.affixes@[i], members, affix_db)
}

proof fn lemma_weight_sum_nonnegative(weights: Seq<u64>)
    ensures
        weight_sum(weights) >= 0,
    decreases weights.len(),
{
    if weights.len() > 0 {
        lemma_weight_sum_nonnegative(weights.drop_last());
    }
}

/// A list of members with one that weighs something can be drawn from.
proof fn lemma_positive_member_weighs<'db>(members: Seq<AffixPoolMember<'db>>, i: int)
    requires
        0 <= i < members.len(),
        members[i].weight > 0,
    ensures
        weight_sum(member_weights(members)) > 0,
    decreases members.len(),
{
    let rest = members.drop_last();
    assert(member_weights(members).drop_last() == member_weights(rest));
    lemma_weight_sum_nonnegative(member_weights(rest));
    if i < members.len() - 1 {
        lemma_positive_member_weighs(rest, i);
    }
}

proof fn lemma_filtered_weights_bounded<'db>(members: Seq<AffixPoolMember<'db>>, criteria: AffixGenerationCriteria)
    ensures
        weight_sum(member_weights(members_meeting_affix_criteria(members, criteria))) <= weight_sum(member_weights(members)),
        forall|member: AffixPoolMember<'db>|
            #[trigger] members_meeting_affix_criteria(members, criteria).contains(member) ==> members.contains(member),
    decreases members.len(),
{
    reveal(Seq::filter);
    if members.len() > 0 {
        let rest = members.drop_last();
        let last = members.last();
        lemma_filtered_weights_bounded(rest, criteria);
        assert(rest.push(last) == members);
        assert(member_weights(members).drop_last() == member_weights(rest));
        let kept = members_meeting_affix_criteria(rest, criteria);
        if meets_criteria(*last.affix_def, criteria) {
            assert(members_meeting_affix_criteria(members, criteria) == kept.push(last));
            assert(member_weights(kept.push(last)).drop_last() == member_weights(kept));
        } else {
            assert(members_meeting_affix_criteria(members, criteria) == kept);
        }
        assert forall|member: AffixPoolMember<'db>|
            #[trigger] members_meeting_affix_criteria(members, criteria).contains(member) implies members.contains(member) by {
            if kept.contains(member) {
                let i = choose|i: int| 0 <= i < rest.len() && rest[i] == member;
                assert(members[i] == member);
            } else {
                assert(members[members.len() - 1] == last);
            }
        }
    }
}

/// The ids of the affixes of the members that weigh something.
pub open spec fn weighted_affix_ids<'db>(members: Seq<AffixPoolMember<'db>>) -> Set<AffixDefinitionId> {
    Set::new(
        |id: AffixDefinitionId|
            exists|member: AffixPoolMember<'db>|
                #[trigger] members.contains(member) && member.weight > 0 && member.affix_def.id == id,
    )
}

/// The smaller of two numbers.
pub open spec fn smaller(a: int, b: int) -> int {
    if a <= b {
        a
    } else {
        b
    }
}

/// When every roll of a member that weighs something gives an affix, an item rolled
/// straight from a definition carries, for a drawn count `k` of weight above 0, as many
/// affixes as the smaller of `k` and the number of distinct affix ids among those members.
pub proof fn lemma_rolled_affix_count<'db>(
    item: Item<'db>,
    definition: ItemDefinition<'db>,
    weighting: Seq<(u8, u64)>,
    affix_db: AffixDefinitionDatabase,
    pool_db: AffixPoolDefinitionDatabase<'db>,
)
    requires
        rolled_item(item, definition, weighting, affix_db, pool_db),
        every_roll_gives_affix(combined_members(definition.affix_pools@, pool_db.contents()), affix_db),
    ensures
        weighted_affix_ids(combined_members(definition.affix_pools@, pool_db.contents())).finite(),
        exists|k: int|
            0 <= k < weighting.len() && (#[trigger] weighting[k]).1 > 0 && item.affixes@.len() == smaller(
                weighting[k].0 as int,
                weighted_affix_ids(combined_members(definition.affix_pools@, pool_db.contents())).len() as int,
            ),
{
    broadcast use vstd::seq_lib::seq_to_set_is_finite;

    let members = combined_members(definition.affix_pools@, pool_db.contents());
    let affixes = item.affixes@;
    let weighted = weighted_affix_ids(members);
    let all_ids = members.map_values(|member: AffixPoolMember<'db>| member.affix_def.id).to_set();
    assert forall|id: AffixDefinitionId| weighted.contains(id) implies all_ids.contains(id) by {
        let member = choose|member: AffixPoolMember<'db>|
            #[trigger] members.contains(member) && member.weight > 0 && member.affix_def.id == id;
        let j = choose|j: int| 0 <= j < members.len() && members[j] == member;
        assert(members.map_values(|member: AffixPoolMember<'db>| member.affix_def.id)[j] == id);
    }
    vstd::set_lib::lemma_len_subset(weighted, all_ids);
    let rolled = affixes.map_values(|affix: GeneratedAffix<'db>| affix.definition.id);
    assert(rolled.no_duplicates());
    rolled.unique_seq_to_set();
    let rolled_ids = rolled.to_set();
    assert forall|id: AffixDefinitionId| rolled_ids.contains(id) implies weighted.contains(id) by {
        let i = choose|i: int| 0 <= i < rolled.len() && rolled[i] == id;
        assert(rolled_from_any_member(affixes[i], members, affix_db));
    }
    vstd::set_lib::lemma_len_subset(rolled_ids, weighted);
    let k = choose|k: int|
        0 <= k < weighting.len() && (#[trigger] weighting[k]).1 > 0 && affixes.len() <= weighting[k].0
            && (every_roll_gives_affix(members, affix_db) ==> affixes.len() == weighting[k].0
            || covers_weighted_affixes(affixes, members));
    if affixes.len() != weighting[k].0 {
        assert forall|id: AffixDefinitionId| weighted.contains(id) implies rolled_ids.contains(id) by {
            let member = choose|member: AffixPoolMember<'db>|
                #[trigger] members.contains(member) && member.weight > 0 && member.affix_def.id == id;
            let i = choose|i: int| 0 <= i < affixes.len() && (#[trigger] affixes[i]).definition.id == member.affix_def.id;
            assert(rolled[i] == id);
        }
        assert(rolled_ids =~= weighted);
    }
    assert(affixes.len() == smaller(weighting[k].0 as int, weighted.len() as int));
}

impl<'db> ItemDefinition<'db> {
    /// Rolls an item of this definition: a count drawn from the weighting, then that many
    /// rolls from the combined members of its pools, each excluding the affix definitions
    /// already rolled. A roll that gives nothing is skipped, so no affix definition appears
    /// twice and at most the drawn count of affixes is rolled.
    pub fn generate(
        &self,
        affix_database: &'db AffixDefinitionDatabase,
        affix_pool_database: &'db AffixPoolDefinitionDatabase<'db>,
        criteria: &ItemDefinitionCriteria,
    ) -> (item: Item<'db>)
        requires
            pools_can_be_rolled(*self, criteria.affix_count_weighting@, *affix_database, *affix_pool_database),
        ensures
            rolled_item(item, *self, criteria.affix_count_weighting@, *affix_database, *affix_pool_database),
    {
        let weights = crate::item_generation::count_weights_of(&criteria.affix_count_weighting);
        let k = sample_weighted_index(&weights).unwrap();
        assert(weights@[k as int] == criteria.affix_count_weighting@[k as int].1);
        let affix_count = criteria.affix_count_weighting[k].0;

        let affix_pool_members = gather_pool_members(self, affix_pool_database);
        let ghost members = affix_pool_members@;
        let pool = AffixPoolDefinition::with_members(affix_pool_members);

        let mut disallowed: HashSet<AffixDefinitionId> = HashSet::new();
        let mut affixes: Vec<GeneratedAffix<'db>> = Vec::new();
        let mut drawn: u8 = 0;
        while drawn < affix_count
            invariant
                0 <= drawn <= affix_count,
                pool.members@ == members,
                members == combined_members(self.affix_pools@, affix_pool_database.contents()),
                pools_can_be_rolled(*self, criteria.affix_count_weighting@, *affix_database, *affix_pool_database),
                affixes@.len() <= drawn,
                every_roll_gives_affix(members, *affix_database) ==> affixes@.len() == drawn
                    || covers_weighted_affixes(affixes@, members),
                distinct_definitions(affixes@),
                forall|id: AffixDefinitionId| #[trigger] disallowed@.contains(id) <==> exists|i: int|
                    0 <= i < affixes@.len() && (#[trigger] affixes@[i]).definition.id == id,
                forall|i: int|
                    0 <= i < affixes@.len() ==> rolled_from_any_member(#[trigger] affixes@[i], members, *affix_database),
            decreases affix_count - drawn,
        {
            let affix_criteria = AffixGenerationCriteria {
                allowed_ids: None,
                disallowed_ids: Some(disallowed),
                placement: None,
                maximum_tier: None,
                item_level: None,
            };
            proof {
                lemma_filtered_weights_bounded(members, affix_criteria);
                if every_roll_gives_affix(members, *affix_database) && !covers_weighted_affixes(affixes@, members) {
                    let missing = choose|member: AffixPoolMember<'db>|
                        #[trigger] members.contains(member) && member.weight > 0 && !(exists|i: int|
                            0 <= i < affixes@.len() && (#[trigger] affixes@[i]).definition.id == member.affix_def.id);
                    assert(!disallowed@.contains(missing.affix_def.id));
                    assert(meets_criteria(*missing.affix_def, affix_criteria));
                    let j = choose|j: int| 0 <= j < members.len() && members[j] == missing;
                    members.lemma_filter_contains(|member: AffixPoolMember<'db>| meets_criteria(*member.affix_def, affix_criteria), j);
                    let meeting = members_meeting_affix_criteria(members, affix_criteria);
                    assert(meeting.contains(missing));
                    let m = choose|m: int| 0 <= m < meeting.len() && meeting[m] == missing;
                    lemma_positive_member_weighs(meeting, m);
                    assert(rolls_always_give_affix(members, affix_criteria, *affix_database));
                }
            }
            let rolled = pool.generate(affix_database, &affix_criteria);
            disallowed = match affix_criteria.disallowed_ids {
                Some(set) => set,
                None => HashSet::new(),
            };
            match rolled {
                Some(affix) => {
                    let ghost before = affixes@;
                    let id = affix.definition.id;
                    proof {
                        let member = choose|member: AffixPoolMember<'db>|
                            #[trigger] members_meeting_affix_criteria(members, affix_criteria).contains(member)
                                && member.weight > 0
                                && affix_database.contents().contains_key(member.affix_def.id)
                                && *affix.definition == affix_database.contents()[member.affix_def.id]
                                && affix.definition.id == member.affix_def.id;
                        assert(meets_criteria(*member.affix_def, affix_criteria));
                        assert(!disallowed@.contains(id));
                        assert(members.contains(member));
                    }
                    affixes.push(affix);
                    disallowed.insert(id);
                    proof {
                        if covers_weighted_affixes(before, members) {
                            assert forall|member: AffixPoolMember<'db>|
                                #[trigger] members.contains(member) && member.weight > 0 implies exists|i: int|
                                0 <= i < affixes@.len() && (#[trigger] affixes@[i]).definition.id == member.affix_def.id by {
                                let i = choose|i: int| 0 <= i < before.len() && (#[trigger] before[i]).definition.id == member.affix_def.id;
                                assert(affixes@[i] == before[i]);
                            }
                        }
                        assert forall|i: int| 0 <= i < affixes@.len() implies rolled_from_any_member(
                            #[trigger] affixes@[i],
                            members,
                            *affix_database,
                        ) by {
                            if i < before.len() {
                                assert(affixes@[i] == before[i]);
                            }
                        }
                        assert forall|i: int, j: int| 0 <= i < j < affixes@.len() implies (#[trigger] affixes@[i]).definition.id
                            != (#[trigger] affixes@[j]).definition.id by {
                            if j < before.len() {
                                assert(affixes@[i] == before[i] && affixes@[j] == before[j]);
                            } else {
                                assert(affixes@[i] == before[i]);
                                assert(disallowed@.contains(before[i].definition.id));
                            }
                        }
                        assert forall|x: AffixDefinitionId| #[trigger] disallowed@.contains(x) <==> exists|i: int|
                            0 <= i < affixes@.len() && (#[trigger] affixes@[i]).definition.id == x by {
                            if x == id {
                                assert(affixes@[before.len() as int].definition.id == x);
                            } else if disallowed@.contains(x) {
                                let i = choose|i: int| 0 <= i < before.len() && (#[trigger] before[i]).definition.id == x;
                                assert(affixes@[i] == before[i]);
                            } else {
                                if exists|i: int| 0 <= i < affixes@.len() && (#[trigger] affixes@[i]).definition.id == x {
                                    let i = choose|i: int| 0 <= i < affixes@.len() && (#[trigger] affixes@[i]).definition.id == x;
                                    assert(affixes@[i] == before[i]);
                                }
                            }
                        }
                    }
                },
                None => {},
            }
            drawn = drawn + 1;
        }
        let item = Item { definition_id: self.id, classification: self.classification, affixes };
        assert(item.affixes@.len() <= criteria.affix_count_weighting@[k as int].0);
        item
    }
}

/// What dropping an item straight from a loot pool with `members` needs: the weights add
/// up within a `u64` and not to zero, and every member that weighs something names an item
/// definition that the item database holds and that can be rolled with the default counts.
pub open spec fn can_drop_item<'db>(
    members: Seq<LootPoolMember<'db>>,
    affix_db: AffixDefinitionDatabase,
    pool_db: AffixPoolDefinitionDatabase<'db>,
    item_db: ItemDefinitionDatabase<'db>,
) -> bool {
    &&& weight_sum(loot_weights(members)) <= u64::MAX
    &&& weights_can_be_sampled(loot_weights(members))
    &&& forall|member: LootPoolMember<'db>|
        #[trigger] members.contains(member) && member.weight > 0 ==> {
            &&& item_db.contents().contains_key(member.item_def.id)
            &&& pools_can_be_rolled(item_db.contents()[member.item_def.id], default_count_weighting(), affix_db, pool_db)
        }
}

impl<'db> LootPoolDefinition<'db> {
    /// Drops an item: picks a member with probability proportional to its weight and rolls
    /// an item, with the default criteria, straight from its definition as the item database
    /// holds it.
    pub fn generate(
        &self,
        item_database: &'db ItemDefinitionDatabase<'db>,
        affix_database: &'db AffixDefinitionDatabase,
        affix_pool_database: &'db AffixPoolDefinitionDatabase<'db>,
        _criteria: &LootPoolCriteria,
    ) -> (item: Item<'db>)
        requires
            can_drop_item(self.members@, *affix_database, *affix_pool_database, *item_database),
        ensures
            exists|member: LootPoolMember<'db>|
                #[trigger] self.members@.contains(member) && member.weight > 0
                    && item_database.contents().contains_key(member.item_def.id)
                    && rolled_item(
                    item,
                    item_database.contents()[member.item_def.id],
                    default_count_weighting(),
                    *affix_database,
                    *affix_pool_database,
                ),
            item.affixes@.len() <= 6,
    {
        let weights = crate::loot_pool::loot_weights_of(&self.members);
        let index = sample_weighted_index(&weights).unwrap();
        let member = self.members[index];
        proof {
            assert(weights@[index as int] == member.weight);
            assert(self.members@.contains(member));
        }
        let definition = item_database.definition(member.item_def.id).unwrap();
        let criteria = ItemDefinitionCriteria::default();
        let item = definition.generate(affix_database, affix_pool_database, &criteria);
        proof {
            let weighting = criteria.affix_count_weighting@;
            let k = choose|k: int|
                0 <= k < weighting.len() && (#[trigger] weighting[k]).1 > 0 && item.affixes@.len() <= weighting[k].0
                    && (every_roll_gives_affix(
                    combined_members(definition.affix_pools@, affix_pool_database.contents()),
                    *affix_database,
                ) ==> item.affixes@.len() == weighting[k].0 || covers_weighted_affixes(
                    item.affixes@,
                    combined_members(definition.affix_pools@, affix_pool_database.contents()),
                ));
            assert(weighting[k].0 <= 6);
            assert(self.members@.contains(member));
        }
        item
    }
}

/// Whether an item can be dropped straight from a loot pool with `members`, as
/// [`can_drop_item`] states.
pub fn check_can_drop_item<'db>(
    members: &Vec<LootPoolMember<'db>>,
    affix_db: &AffixDefinitionDatabase,
    pool_db: &AffixPoolDefinitionDatabase<'db>,
    item_db: &ItemDefinitionDatabase<'db>,
) -> (ok: bool)
    ensures
        ok == can_drop_item(members@, *affix_db, *pool_db, *item_db),
{
    let weights = crate::loot_pool::loot_weights_of(members);
    match total_weight(&weights) {
        Some(total) => {
            if total == 0 {
                return false;
            }
        },
        None => {
            return false;
        },
    }
    let default_weighting = ItemDefinitionCriteria::default().affix_count_weighting;
    let mut j: usize = 0;
    while j < members.len()
        invariant
            0 <= j <= members@.len(),
            default_weighting@ == default_count_weighting(),
            forall|k: int|
                0 <= k < j && (#[trigger] members@[k]).weight > 0 ==> {
                    &&& item_db.contents().contains_key(members@[k].item_def.id)
                    &&& pools_can_be_rolled(item_db.contents()[members@[k].item_def.id], default_count_weighting(), *affix_db, *pool_db)
                },
        decreases members@.len() - j,
    {
        let member = members[j];
        if member.weight > 0 {
            let fits = match item_db.definition(member.item_def.id) {
                Some(definition) => check_pools_can_be_rolled(definition, &default_weighting, affix_db, pool_db),
                None => false,
            };
            if !fits {
                assert(members@.contains(member));
                return false;
            }
        }
        j = j + 1;
    }
    assert forall|member: LootPoolMember<'db>|
        #[trigger] members@.contains(member) && member.weight > 0 implies {
            &&& item_db.contents().contains_key(member.item_def.id)
            &&& pools_can_be_rolled(item_db.contents()[member.item_def.id], default_count_weighting(), *affix_db, *pool_db)
        } by {
        let k = choose|k: int| 0 <= k < members@.len() && members@[k] == member;
        assert(members@[k].weight > 0);
    }
    true
}

/// Whether affixes can be rolled from a pool with `members` and the criteria, as
/// [`can_roll_from`] states.
pub fn check_can_roll_from<'db>(
    members: &Vec<AffixPoolMember<'db>>,
    criteria: &AffixGenerationCriteria,
    affix_db: &AffixDefinitionDatabase,
) -> (ok: bool)
    ensures
        ok == can_roll_from(members@, *criteria, *affix_db),
{
    let meeting = filter_by_affix_criteria(members, criteria);
    let weights = crate::affix_pool::AffixPoolGenerator::weights_of(&meeting);
    if total_weight(&weights).is_none() {
        return false;
    }
    let mut j: usize = 0;
    while j < meeting.len()
        invariant
            0 <= j <= meeting@.len(),
            meeting@ == members_meeting_affix_criteria(members@, *criteria),
            forall|k: int|
                0 <= k < j && (#[trigger] meeting@[k]).weight > 0 ==> affix_db.contents().contains_key(meeting@[k].affix_def.id),
        decreases meeting@.len() - j,
    {
        let member = meeting[j];
        if member.weight > 0 && affix_db.definition(member.affix_def.id).is_none() {
            assert(meeting@.contains(member));
            return false;
        }
        j = j + 1;
    }
    assert forall|member: AffixPoolMember<'db>|
        #[trigger] meeting@.contains(member) && member.weight > 0 implies affix_db.contents().contains_key(member.affix_def.id) by {
        let k = choose|k: int| 0 <= k < meeting@.len() && meeting@[k] == member;
        assert(meeting@[k].weight > 0);
    }
    true
}

} // verus!
