//! Rolling affixes: choosing a definition that meets a set of criteria, and a tier of it
//! that an item of a given level may carry.
//!
//! What a generated affix carries in its `stats` field is the chosen tier: the stat ranges
//! from which its values are then rolled.

use crate::affix::{
    AffixDefinition, AffixDefinitionDatabase, AffixDefinitionId, AffixDefinitionTier,
    AffixPlacement, AffixTierId, tier_values, tiers_up_to,
};
use crate::data::{DataDefinition, DataDefinitionDatabase, DataInstanceGenerator};
use crate::random::choose_in_range;
use std::collections::HashSet;
use vstd::prelude::*;

verus! {

broadcast use vstd::std_specs::hash::group_hash_axioms;

/// An affix on an item: a definition, the tier it rolled at, and the stats it carries.
#[derive(Clone, Debug)]
pub struct AffixInstance<'db, S> {
    pub definition: &'db AffixDefinition,
    pub tier: AffixTierId,
    pub stats: S,
}

/// An affix as generated, before its stats are rolled: the stats it carries are the chosen
/// tier of its definition.
pub type GeneratedAffix<'db> = AffixInstance<'db, &'db AffixDefinitionTier>;

/// Requirements when generating affixes.
pub struct AffixGenerationCriteria {
    /// Which [AffixDefinition]s should be considered, if any.
    pub allowed_ids: Option<HashSet<AffixDefinitionId>>,
    /// Which [AffixDefinition]s should be excluded, if any.
    pub disallowed_ids: Option<HashSet<AffixDefinitionId>>,
    /// [AffixPlacement] to force, if any.
    pub placement: Option<AffixPlacement>,
    /// Maximum tier of affix to generate, if any.
    pub maximum_tier: Option<AffixTierId>,
    /// Item level.
    pub item_level: Option<u8>,
}

impl Default for AffixGenerationCriteria {
    fn default() -> (criteria: Self)
        ensures
            criteria.allowed_ids is None,
            criteria.disallowed_ids is None,
            criteria.placement is None,
            criteria.maximum_tier is None,
            criteria.item_level is None,
    {
        AffixGenerationCriteria {
            allowed_ids: None,
            disallowed_ids: None,
            placement: None,
            maximum_tier: None,
            item_level: None,
        }
    }
}

/// An id passes the criteria's allowed and disallowed lists, where they are given.
pub open spec fn id_allowed(id: AffixDefinitionId, criteria: AffixGenerationCriteria) -> bool {
    &&& (criteria.allowed_ids matches Some(allowed) ==> allowed@.contains(id))
    &&& (criteria.disallowed_ids matches Some(disallowed) ==> !disallowed@.contains(id))
}

/// A placement is the one the criteria force, where they force one.
pub open spec fn placement_allowed(placement: AffixPlacement, criteria: AffixGenerationCriteria) -> bool {
    criteria.placement matches Some(forced) ==> forced == placement
}

/// A definition meets the criteria's id lists and placement.
pub open spec fn meets_criteria(definition: AffixDefinition, criteria: AffixGenerationCriteria) -> bool {
    id_allowed(definition.id, criteria) && placement_allowed(definition.placement, criteria)
}

/// An item of level `item_level` (none counts as 0) may carry the tier: the tier's
/// requirement (none counts as 0) is at most that level.
pub open spec fn level_allows(tier: AffixDefinitionTier, item_level: Option<u8>) -> bool {
    let required: u8 = match tier.item_level_req {
        Some(level) => level,
        None => 0,
    };
    let level: u8 = match item_level {
        Some(level) => level,
        None => 0,
    };
    required <= level
}

/// The tiers of `tiers`, in order, that an item of level `item_level` may carry.
pub open spec fn tiers_for_level(tiers: Seq<AffixDefinitionTier>, item_level: Option<u8>) -> Seq<
    AffixDefinitionTier,
> {
    tiers.filter(|tier: AffixDefinitionTier| level_allows(tier, item_level))
}

/// Whether a definition meets the criteria's id lists and placement.
pub fn meets_criteria_exec(definition: &AffixDefinition, criteria: &AffixGenerationCriteria) -> (meets: bool)
    ensures
        meets == meets_criteria(*definition, *criteria),
{
    let allowed = match &criteria.allowed_ids {
        Some(allowed) => allowed.contains(&definition.id),
        None => true,
    };
    let not_disallowed = match &criteria.disallowed_ids {
        Some(disallowed) => !disallowed.contains(&definition.id),
        None => true,
    };
    let placement_fits = match criteria.placement {
        Some(forced) => forced == definition.placement,
        None => true,
    };
    allowed && not_disallowed && placement_fits
}

/// The tiers of `tiers`, in order, that an item of level `item_level` may carry.
pub fn filter_tiers_for_level<'a>(
    tiers: &Vec<&'a AffixDefinitionTier>,
    item_level: Option<u8>,
) -> (eligible: Vec<&'a AffixDefinitionTier>)
    ensures
        tier_values(eligible@) == tiers_for_level(tier_values(tiers@), item_level),
{
    let level: u8 = match item_level {
        Some(level) => level,
        None => 0,
    };
    let mut eligible: Vec<&'a AffixDefinitionTier> = Vec::new();
    let mut i: usize = 0;
    while i < tiers.len()
        invariant
            0 <= i <= tiers@.len(),
            level == match item_level {
                Some(level) => level,
                None => 0u8,
            },
            tier_values(eligible@) == tiers_for_level(tier_values(tiers@).take(i as int), item_level),
        decreases tiers@.len() - i,
    {
        let tier = tiers[i];
        let required: u8 = match tier.item_level_req {
            Some(required) => required,
            None => 0,
        };
        let ghost before = eligible@;
        proof {
            let values = tier_values(tiers@);
            assert(values.take(i + 1) == values.take(i as int).push(*tier));
            values.take(i as int).lemma_filter_push(*tier, |t: AffixDefinitionTier| level_allows(t, item_level));
        }
        if required <= level {
            eligible.push(tier);
            proof {
                assert(tier_values(eligible@) =~= tier_values(before).push(*tier));
            }
        }
        i = i + 1;
    }
    proof {
        assert(tier_values(tiers@).take(tiers@.len() as int) == tier_values(tiers@));
    }
    eligible
}

/// A tier picked from a list: `Some` with one of them, or `None` when the list is empty.
pub fn choose_tier<'a>(tiers: &Vec<&'a AffixDefinitionTier>) -> (chosen: Option<&'a AffixDefinitionTier>)
    ensures
        chosen is None <==> tiers@.len() == 0,
        chosen matches Some(tier) ==> tier_values(tiers@).contains(*tier),
{
    match choose_in_range(0, tiers.len()) {
        Some(index) => {
            proof {
                assert(tier_values(tiers@)[index as int] == *tiers@[index as int]);
            }
            Some(tiers[index])
        },
        None => None,
    }
}

/// An affix generated from `definition` with `tier` as the tier it rolled at.
pub open spec fn is_affix_of<'db>(affix: GeneratedAffix<'db>, definition: AffixDefinition, tier: AffixDefinitionTier) -> bool {
    &&& *affix.definition == definition
    &&& *affix.stats == tier
    &&& affix.tier == tier.tier
}

pub struct AffixGenerator {}

/// The highest tier a maximum allows: the maximum, or every tier.
pub open spec fn limit_of(maximum_tier: Option<AffixTierId>) -> int {
    match maximum_tier {
        Some(maximum) => maximum as int,
        None => 65535,
    }
}

/// The tiers of a definition, in order, from tier 1 up to the maximum tier, that an item of
/// `item_level` may carry.
pub open spec fn allowed_tiers(
    definition: AffixDefinition,
    maximum_tier: Option<AffixTierId>,
    item_level: Option<u8>,
) -> Seq<AffixDefinitionTier> {
    tiers_for_level(tiers_up_to(definition.tiers@, limit_of(maximum_tier)), item_level)
}

/// What generating an affix of `definition` may give: `None` exactly when the criteria
/// allow no tier of it (none up to their maximum tier at their item level), else an affix
/// of it at one of the allowed tiers.
pub open spec fn may_roll_affix<'db>(
    definition: AffixDefinition,
    criteria: AffixGenerationCriteria,
    affix: Option<GeneratedAffix<'db>>,
) -> bool {
    let allowed = tiers_meeting(definition, criteria);
    &&& (affix is None <==> allowed.len() == 0)
    &&& (affix matches Some(a) ==> exists|tier: AffixDefinitionTier|
        #![trigger is_affix_of(a, definition, tier)]
        allowed.contains(tier) && is_affix_of(a, definition, tier))
}

impl<'db> DataInstanceGenerator<'db, AffixDefinition, Option<GeneratedAffix<'db>>, AffixGenerationCriteria> for AffixGenerator {
    type DataDependencies = ();

    open spec fn can_generate(&self, definition: AffixDefinition, criteria: AffixGenerationCriteria, databases: ()) -> bool {
        true
    }

    open spec fn may_generate(
        &self,
        definition: AffixDefinition,
        criteria: AffixGenerationCriteria,
        databases: (),
        instance: Option<GeneratedAffix<'db>>,
    ) -> bool {
        may_roll_affix(definition, criteria, instance)
    }

    /// Generates an affix of `definition` at a random tier, at most the criteria's maximum
    /// tier, that an item of the criteria's level may carry. Returns `None` if no tier is
    /// allowed.
    fn generate(
        &self,
        definition: &'db AffixDefinition,
        criteria: &AffixGenerationCriteria,
        _databases: &(),
    ) -> (affix: Option<GeneratedAffix<'db>>) {
        let all_tiers = match criteria.maximum_tier {
            Some(maximum) => definition.tiers_to(&maximum),
            None => definition.tiers(),
        };
        let eligible = filter_tiers_for_level(&all_tiers, criteria.item_level);
        match choose_tier(&eligible) {
            Some(tier) => {
                let affix = AffixInstance { definition, tier: tier.tier, stats: tier };
                assert(is_affix_of(affix, *definition, *tier));
                Some(affix)
            },
            None => None,
        }
    }
}

/// The tiers of a definition that the criteria allow: at most their maximum tier, and
/// allowed at their item level.
pub open spec fn tiers_meeting(definition: AffixDefinition, criteria: AffixGenerationCriteria) -> Seq<AffixDefinitionTier> {
    allowed_tiers(definition, criteria.maximum_tier, criteria.item_level)
}

/// The definitions of `definitions`, in order, that meet the criteria.
pub fn filter_definitions<'a>(
    definitions: &Vec<&'a AffixDefinition>,
    criteria: &AffixGenerationCriteria,
) -> (pool: Vec<&'a AffixDefinition>)
    ensures
        forall|i: int| 0 <= i < pool@.len() ==> definitions@.contains(#[trigger] pool@[i]) && meets_criteria(*pool@[i], *criteria),
        forall|i: int| 0 <= i < definitions@.len() && meets_criteria(*(#[trigger] definitions@[i]), *criteria) ==> pool@.contains(definitions@[i]),
{
    let mut pool: Vec<&'a AffixDefinition> = Vec::new();
    let mut i: usize = 0;
    while i < definitions.len()
        invariant
            0 <= i <= definitions@.len(),
            forall|k: int| 0 <= k < pool@.len() ==> definitions@.contains(#[trigger] pool@[k]) && meets_criteria(*pool@[k], *criteria),
            forall|k: int| 0 <= k < i && meets_criteria(*(#[trigger] definitions@[k]), *criteria) ==> pool@.contains(definitions@[k]),
        decreases definitions@.len() - i,
    {
        let definition = definitions[i];
        if meets_criteria_exec(definition, criteria) {
            let ghost before = pool@;
            pool.push(definition);
            proof {
                assert(pool@[pool@.len() - 1] == definition);
                assert forall|k: int| 0 <= k < i && meets_criteria(*(#[trigger] definitions@[k]), *criteria) implies pool@.contains(definitions@[k]) by {
                    let j = choose|j: int| 0 <= j < before.len() && before[j] == definitions@[k];
                    assert(pool@[j] == definitions@[k]);
                }
            }
        }
        i = i + 1;
    }
    pool
}

impl AffixDefinitionDatabase {
    /// Generates an affix given a set of criteria: a random definition that meets them, at a
    /// random tier that they allow. May return `None` if the criteria exclude every loaded
    /// definition, or if the chosen definition has no tier that they allow.
    pub fn generate(&self, criteria: &AffixGenerationCriteria) -> (affix: Option<GeneratedAffix<'_>>)
        ensures
            affix matches Some(a) ==> {
                &&& self.contents().contains_key(a.definition.id)
                &&& self.contents()[a.definition.id] == *a.definition
                &&& meets_criteria(*a.definition, *criteria)
                &&& exists|tier: AffixDefinitionTier|
                    #![trigger is_affix_of(a, *a.definition, tier)]
                    tiers_meeting(*a.definition, *criteria).contains(tier) && is_affix_of(a, *a.definition, tier)
            },
            (forall|id: AffixDefinitionId| #[trigger] self.contents().contains_key(id) ==> !meets_criteria(self.contents()[id], *criteria)) ==> affix is None,
            ((exists|id: AffixDefinitionId| #[trigger] self.contents().contains_key(id) && meets_criteria(self.contents()[id], *criteria))
                && (forall|id: AffixDefinitionId| #[trigger] self.contents().contains_key(id) && meets_criteria(self.contents()[id], *criteria) ==> tiers_meeting(self.contents()[id], *criteria).len() > 0))
                ==> affix is Some,
    {
        let definitions = self.definitions();
        let ghost listed = definitions@.map_values(|d: &AffixDefinition| *d);
        let pool = filter_definitions(&definitions, criteria);
        proof {
            assert forall|i: int| 0 <= i < pool@.len() implies self.contents().contains_key((#[trigger] pool@[i]).id) && self.contents()[pool@[i].id] == *pool@[i] by {
                let j = choose|j: int| 0 <= j < definitions@.len() && definitions@[j] == pool@[i];
                assert(listed[j] == *definitions@[j]);
            }
            if exists|id: AffixDefinitionId| #[trigger] self.contents().contains_key(id) && meets_criteria(self.contents()[id], *criteria) {
                let id = choose|id: AffixDefinitionId| #[trigger] self.contents().contains_key(id) && meets_criteria(self.contents()[id], *criteria);
                let j = choose|j: int| 0 <= j < listed.len() && (#[trigger] listed[j]).definition_id() == id;
                assert(*definitions@[j] == listed[j]);
                assert(pool@.contains(definitions@[j]));
            }
        }
        let index = match choose_in_range(0, pool.len()) {
            Some(index) => index,
            None => {
                proof {
                    assert forall|id: AffixDefinitionId| #[trigger] self.contents().contains_key(id) implies !meets_criteria(self.contents()[id], *criteria) by {
                        if meets_criteria(self.contents()[id], *criteria) {
                            let j = choose|j: int| 0 <= j < listed.len() && (#[trigger] listed[j]).definition_id() == id;
                            assert(*definitions@[j] == listed[j]);
                            assert(pool@.contains(definitions@[j]));
                        }
                    }
                }
                return None;
            },
        };
        let affix_definition = pool[index];
        let tiers = match criteria.maximum_tier {
            Some(maximum) => affix_definition.tiers_to(&maximum),
            None => affix_definition.tiers(),
        };
        let eligible = filter_tiers_for_level(&tiers, criteria.item_level);
        match choose_tier(&eligible) {
            Some(tier) => {
                let affix = AffixInstance { definition: affix_definition, tier: tier.tier, stats: tier };
                assert(is_affix_of(affix, *affix_definition, *tier));
                Some(affix)
            },
            None => {
                proof {
                    assert(self.contents().contains_key(affix_definition.id));
                }
                None
            },
        }
    }
}

} // verus!
