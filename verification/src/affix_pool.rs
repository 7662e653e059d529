//! Affix pools: weighted lists of affix definitions from which items roll their affixes.

use crate::affix::{AffixDefinition, AffixDefinitionDatabase, AffixDefinitionId, AffixPlacement};
use crate::data::{
    DataDefinition, DataDefinitionDatabase, DataInstanceGenerator, all_definitions_valid, definitions_by_id,
    keyed_by_id, lemma_definitions_by_id_keyed, list_definitions,
};
use crate::random::{sample_weighted_index, weight_sum, weights_can_be_sampled};
use std::collections::HashMap;
use std::collections::HashSet;
use vstd::prelude::*;

verus! {

broadcast use vstd::std_specs::hash::group_hash_axioms;

pub type AffixPoolDefinitionId = u32;

#[derive(Clone, Copy, Debug)]
pub struct AffixPoolMember<'db> {
    /// What affix will be generated when selected.
    pub affix_def: &'db AffixDefinition,
    /// Weight indicates how often this member will be chosen. A higher value = more common.
    pub weight: u64,
}

#[derive(Clone, Debug)]
pub struct AffixPoolDefinition<'db> {
    pub id: AffixPoolDefinitionId,
    /// All [AffixPoolMember]s that can roll as part of this [AffixPoolDefinition].
    pub members: Vec<AffixPoolMember<'db>>,
    pub name: String,
}

impl<'db> DataDefinition for AffixPoolDefinition<'db> {
    type DefinitionTypeId = AffixPoolDefinitionId;

    open spec fn definition_id(&self) -> AffixPoolDefinitionId {
        self.id
    }

    open spec fn numeric_id(&self) -> u64 {
        self.id as u64
    }

    /// A pool is valid when it has at least one member.
    open spec fn is_valid(&self) -> bool {
        self.members@.len() > 0
    }

    fn id(&self) -> (id: u64) {
        self.id as u64
    }

    fn validate(&self) -> (valid: bool) {
        !self.members.is_empty()
    }
}

impl<'db> AffixPoolDefinition<'db> {
    /// Creates a temporary [AffixPoolDefinition] given existing [AffixPoolMember]s.
    pub fn with_members(members: Vec<AffixPoolMember<'db>>) -> (pool: AffixPoolDefinition<'db>)
        ensures
            pool.id == 0,
            pool.members@ == members@,
            pool.name@ == "from_members temp"@,
    {
        AffixPoolDefinition { id: 0, members, name: "from_members temp".to_owned() }
    }
}

pub struct AffixPoolDefinitionDatabase<'db> {
    affix_pools: HashMap<AffixPoolDefinitionId, AffixPoolDefinition<'db>>,
}

impl<'db> AffixPoolDefinitionDatabase<'db> {
    #[verifier::type_invariant]
    spec fn keys_are_ids(&self) -> bool {
        keyed_by_id(self.affix_pools@)
    }

    /// Builds a database from pools in the order they were loaded; a later pool replaces an
    /// earlier one with the same id.
    pub fn from_definitions(definitions: Vec<AffixPoolDefinition<'db>>) -> (database: Self)
        ensures
            database.contents() == definitions_by_id(definitions@),
    {
        let mut affix_pools: HashMap<AffixPoolDefinitionId, AffixPoolDefinition<'db>> = HashMap::new();
        let ghost all = definitions@;
        let mut i: usize = 0;
        let count = definitions.len();
        let mut remaining = definitions;
        proof {
            assert(all.take(0) == Seq::<AffixPoolDefinition<'db>>::empty());
        }
        while remaining.len() > 0
            invariant
                0 <= i <= all.len(),
                count == all.len(),
                remaining@ == all.skip(i as int),
                affix_pools@ == definitions_by_id(all.take(i as int)),
            decreases remaining@.len(),
        {
            let definition = remaining.remove(0);
            assert(definition == all[i as int]);
            assert(all.take(i as int + 1).drop_last() == all.take(i as int));
            affix_pools.insert(definition.id, definition);
            i = i + 1;
        }
        assert(all.take(all.len() as int) == all);
        proof {
            lemma_definitions_by_id_keyed(all);
        }
        AffixPoolDefinitionDatabase { affix_pools }
    }
}

impl<'db> DataDefinitionDatabase<AffixPoolDefinition<'db>> for AffixPoolDefinitionDatabase<'db> {
    closed spec fn contents(&self) -> Map<AffixPoolDefinitionId, AffixPoolDefinition<'db>> {
        self.affix_pools@
    }

    fn validate(&self) -> (loaded: bool) {
        all_definitions_valid(&self.affix_pools)
    }

    fn definition(&self, id: AffixPoolDefinitionId) -> (found: Option<&AffixPoolDefinition<'db>>) {
        proof {
            use_type_invariant(self);
        }
        self.affix_pools.get(&id)
    }

    fn definitions(&self) -> (all: Vec<&AffixPoolDefinition<'db>>) {
        proof {
            use_type_invariant(self);
        }
        list_definitions(&self.affix_pools)
    }

    fn add_definition(&mut self, definition: AffixPoolDefinition<'db>) {
        proof {
            use_type_invariant(&*self);
        }
        let mut affix_pools = HashMap::new();
        std::mem::swap(&mut affix_pools, &mut self.affix_pools);
        affix_pools.insert(definition.id, definition);
        self.affix_pools = affix_pools;
    }
}

/// Requirements when picking an affix definition from an affix pool.
pub struct AffixPoolGenerationCriteria {
    /// Which [AffixDefinition]s should be considered, if any.
    pub allowed_ids: Option<HashSet<AffixDefinitionId>>,
    /// Which [AffixDefinition]s should be excluded, if any.
    pub disallowed_ids: Option<HashSet<AffixDefinitionId>>,
    /// [AffixPlacement] to force, if any.
    pub placement: Option<AffixPlacement>,
}

impl Default for AffixPoolGenerationCriteria {
    fn default() -> (criteria: Self)
        ensures
            criteria.allowed_ids is None,
            criteria.disallowed_ids is None,
            criteria.placement is None,
    {
        AffixPoolGenerationCriteria { allowed_ids: None, disallowed_ids: None, placement: None }
    }
}

/// A member's affix passes the criteria's id lists and placement, where they are given.
pub open spec fn member_meets(member: AffixPoolMember, criteria: AffixPoolGenerationCriteria) -> bool {
    &&& (criteria.allowed_ids matches Some(allowed) ==> allowed@.contains(member.affix_def.id))
    &&& (criteria.disallowed_ids matches Some(disallowed) ==> !disallowed@.contains(member.affix_def.id))
    &&& (criteria.placement matches Some(forced) ==> forced == member.affix_def.placement)
}

/// The members of a pool, in order, that meet the criteria.
pub open spec fn members_meeting<'db>(members: Seq<AffixPoolMember<'db>>, criteria: AffixPoolGenerationCriteria) -> Seq<AffixPoolMember<'db>> {
    members.filter(|member: AffixPoolMember<'db>| member_meets(member, criteria))
}

/// The weights of a list of members, in order.
pub open spec fn member_weights(members: Seq<AffixPoolMember>) -> Seq<u64> {
    members.map_values(|member: AffixPoolMember| member.weight)
}

/// A pool can be drawn from with these criteria: the weights of the members that meet them
/// add up within a `u64`, and every such member that can be drawn has its affix in the
/// database.
pub open spec fn can_draw_from<'db>(
    members: Seq<AffixPoolMember<'db>>,
    criteria: AffixPoolGenerationCriteria,
    affix_db: AffixDefinitionDatabase,
) -> bool {
    &&& weight_sum(member_weights(members_meeting(members, criteria))) <= u64::MAX
    &&& forall|member: AffixPoolMember<'db>|
        #[trigger] members_meeting(members, criteria).contains(member) && member.weight > 0
            ==> affix_db.contents().contains_key(member.affix_def.id)
}

/// The members kept for a draw are exactly the members of the pool whose affix is among the
/// allowed ids when those are given, is not among the disallowed ids when those are given,
/// and has the forced placement when one is given; they keep their order.
pub proof fn lemma_kept_members_follow_criteria<'db>(members: Seq<AffixPoolMember<'db>>, criteria: AffixPoolGenerationCriteria)
    ensures
        forall|i: int|
            0 <= i < members_meeting(members, criteria).len() ==> {
                let kept = #[trigger] members_meeting(members, criteria)[i];
                &&& members.contains(kept)
                &&& (criteria.allowed_ids matches Some(allowed) ==> allowed@.contains(kept.affix_def.id))
                &&& (criteria.disallowed_ids matches Some(disallowed) ==> !disallowed@.contains(kept.affix_def.id))
                &&& (criteria.placement matches Some(forced) ==> forced == kept.affix_def.placement)
            },
        forall|i: int|
            0 <= i < members.len() && (criteria.allowed_ids matches Some(allowed) ==> allowed@.contains(
                members[i].affix_def.id,
            )) && (criteria.disallowed_ids matches Some(disallowed) ==> !disallowed@.contains(
                members[i].affix_def.id,
            )) && (criteria.placement matches Some(forced) ==> forced == members[i].affix_def.placement)
                ==> #[trigger] members_meeting(members, criteria).contains(members[i]),
        members_meeting(members, criteria).len() <= members.len(),
{
    broadcast use vstd::seq_lib::group_filter_ensures;
    let pred = |member: AffixPoolMember<'db>| member_meets(member, criteria);
    let kept = members.filter(pred);
    assert forall|i: int| 0 <= i < kept.len() implies members.contains(#[trigger] kept[i]) by {
        members.lemma_filter_contains_rev(pred, kept[i]);
        assert(kept.contains(kept[i]));
    }
}

pub struct AffixPoolGenerator {}

impl AffixPoolGenerator {
    /// The members of `definition`, in order, that meet the criteria.
    pub fn filter_members<'db>(
        definition: &AffixPoolDefinition<'db>,
        criteria: &AffixPoolGenerationCriteria,
    ) -> (filtered: Vec<AffixPoolMember<'db>>)
        ensures
            filtered@ == members_meeting(definition.members@, *criteria),
    {
        let mut filtered: Vec<AffixPoolMember<'db>> = Vec::new();
        let mut i: usize = 0;
        while i < definition.members.len()
            invariant
                0 <= i <= definition.members@.len(),
                filtered@ == members_meeting(definition.members@.take(i as int), *criteria),
            decreases definition.members@.len() - i,
        {
            let member = definition.members[i];
            let allowed = match &criteria.allowed_ids {
                Some(allowed) => allowed.contains(&member.affix_def.id),
                None => true,
            };
            let not_disallowed = match &criteria.disallowed_ids {
                Some(disallowed) => !disallowed.contains(&member.affix_def.id),
                None => true,
            };
            let placement_fits = match criteria.placement {
                Some(forced) => forced == member.affix_def.placement,
                None => true,
            };
            proof {
                let members = definition.members@;
                assert(members.take(i + 1) == members.take(i as int).push(member));
                members.take(i as int).lemma_filter_push(member, |m: AffixPoolMember<'db>| member_meets(m, *criteria));
            }
            if allowed && not_disallowed && placement_fits {
                filtered.push(member);
            }
            i = i + 1;
        }
        proof {
            assert(definition.members@.take(definition.members@.len() as int) == definition.members@);
        }
        filtered
    }

    /// The weights of `members`, in order.
    pub fn weights_of(members: &Vec<AffixPoolMember>) -> (weights: Vec<u64>)
        ensures
            weights@ == member_weights(members@),
    {
        let mut weights: Vec<u64> = Vec::new();
        let mut i: usize = 0;
        while i < members.len()
            invariant
                0 <= i <= members@.len(),
                weights@ == member_weights(members@.take(i as int)),
            decreases members@.len() - i,
        {
            proof {
                assert(member_weights(members@.take(i + 1)) == member_weights(members@.take(i as int)).push(members@[i as int].weight));
            }
            weights.push(members[i].weight);
            i = i + 1;
        }
        proof {
            assert(members@.take(members@.len() as int) == members@);
        }
        weights
    }

}

/// What picking from a pool with `members` may give: `None` exactly when the members that
/// meet the criteria cannot be drawn from (none of them weighs anything), else the
/// definition, as the database holds it, of one of those members that weighs something.
pub open spec fn may_pick_affix<'db>(
    members: Seq<AffixPoolMember<'db>>,
    criteria: AffixPoolGenerationCriteria,
    affix_db: AffixDefinitionDatabase,
    chosen: Option<&'db AffixDefinition>,
) -> bool {
    &&& (chosen is None <==> !weights_can_be_sampled(member_weights(members_meeting(members, criteria))))
    &&& (chosen matches Some(affix) ==> exists|member: AffixPoolMember<'db>|
        #[trigger] members_meeting(members, criteria).contains(member)
            && member.weight > 0
            && affix_db.contents().contains_key(member.affix_def.id)
            && *affix == affix_db.contents()[member.affix_def.id])
}

/// An affix picked from a pool is, as the database holds it, the affix of a member of the
/// pool that weighs something, whose affix is among the allowed ids when those are given, is
/// not among the disallowed ids when those are given, and has the forced placement when one
/// is given.
pub proof fn lemma_picked_affix_follows_criteria<'db>(
    members: Seq<AffixPoolMember<'db>>,
    criteria: AffixPoolGenerationCriteria,
    affix_db: AffixDefinitionDatabase,
    chosen: Option<&'db AffixDefinition>,
)
    requires
        may_pick_affix(members, criteria, affix_db, chosen),
    ensures
        chosen matches Some(affix) ==> exists|member: AffixPoolMember<'db>|
            #[trigger] members.contains(member) && member.weight > 0
                && affix_db.contents().contains_key(member.affix_def.id)
                && *affix == affix_db.contents()[member.affix_def.id]
                && (criteria.allowed_ids matches Some(allowed) ==> allowed@.contains(member.affix_def.id))
                && (criteria.disallowed_ids matches Some(disallowed) ==> !disallowed@.contains(member.affix_def.id))
                && (criteria.placement matches Some(forced) ==> forced == member.affix_def.placement),
{
    broadcast use vstd::seq_lib::group_filter_ensures;
    if chosen is Some {
        let member = choose|member: AffixPoolMember<'db>|
            #[trigger] members_meeting(members, criteria).contains(member)
                && member.weight > 0
                && affix_db.contents().contains_key(member.affix_def.id)
                && *chosen->0 == affix_db.contents()[member.affix_def.id];
        let pred = |m: AffixPoolMember<'db>| member_meets(m, criteria);
        members.lemma_filter_contains_rev(pred, member);
        let kept = members.filter(pred);
        let i = choose|i: int| 0 <= i < kept.len() && kept[i] == member;
        assert(pred(kept[i]));
        assert(members.contains(member));
    }
}

impl<'p, 'db: 'p> DataInstanceGenerator<'p, AffixPoolDefinition<'db>, Option<&'db AffixDefinition>, AffixPoolGenerationCriteria> for AffixPoolGenerator {
    type DataDependencies = &'db AffixDefinitionDatabase;

    open spec fn can_generate(
        &self,
        definition: AffixPoolDefinition<'db>,
        criteria: AffixPoolGenerationCriteria,
        databases: &'db AffixDefinitionDatabase,
    ) -> bool {
        can_draw_from(definition.members@, criteria, *databases)
    }

    open spec fn may_generate(
        &self,
        definition: AffixPoolDefinition<'db>,
        criteria: AffixPoolGenerationCriteria,
        databases: &'db AffixDefinitionDatabase,
        instance: Option<&'db AffixDefinition>,
    ) -> bool {
        may_pick_affix(definition.members@, criteria, *databases, instance)
    }

    /// Picks an affix definition from the pool: a member that meets the criteria, drawn with
    /// probability proportional to its weight, and returns its definition as the database
    /// holds it. Returns `None` if no member meets the criteria or all of them weigh zero.
    fn generate(
        &self,
        definition: &'p AffixPoolDefinition<'db>,
        criteria: &AffixPoolGenerationCriteria,
        databases: &&'db AffixDefinitionDatabase,
    ) -> (chosen: Option<&'db AffixDefinition>) {
        let filtered = AffixPoolGenerator::filter_members(definition, criteria);
        let weights = AffixPoolGenerator::weights_of(&filtered);
        match sample_weighted_index(&weights) {
            Some(index) => {
                let member = filtered[index];
                proof {
                    assert(filtered@.contains(member));
                    assert(member.weight == weights@[index as int]);
                }
                let affix_database = *databases;
                affix_database.definition(member.affix_def.id)
            },
            None => None,
        }
    }
}

} // verus!
