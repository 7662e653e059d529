//! Affixes: named bonuses that roll on items. A definition lists tiers of stat ranges; an
//! instance is one definition at one tier, with the stats it rolled.

use crate::data::{
    DataDefinition, DataDefinitionDatabase, all_definitions_valid, definitions_by_id,
    keyed_by_id, lemma_definitions_by_id_keyed, list_definitions,
};
use crate::stat::Stat;
use std::collections::BTreeMap;
use std::collections::HashMap;
use vstd::prelude::*;
use vstd::std_specs::cmp::OrdSpec;
use vstd::std_specs::iter::IteratorSpec;

verus! {

broadcast use vstd::std_specs::hash::group_hash_axioms, vstd::std_specs::btree::group_btree_axioms, vstd::laws_cmp::group_laws_cmp;

pub type AffixDefinitionId = u32;

pub type AffixTierId = u16;

#[derive(Clone, Copy, Debug, PartialEq, Eq, Structural)]
pub enum AffixPlacement {
    Invalid,
    Prefix,
    Suffix,
}

/// A stat that a tier rolls, between two bounds.
///
/// The bounds are fractional numbers; they are kept as the bit patterns of their `f32`
/// values, which only the code that rolls the stat reads.
#[derive(Clone, Copy, Debug)]
pub struct AffixDefinitionStat {
    pub stat: Stat,
    pub lower_bound_bits: u32,
    pub upper_bound_bits: u32,
}

#[derive(Clone, Debug)]
pub struct AffixDefinitionTier {
    pub tier: AffixTierId,
    pub stats: Vec<AffixDefinitionStat>,
    pub item_level_req: Option<u8>,
    pub precision_places: Option<u32>,
}

#[derive(Clone, Debug)]
pub struct AffixDefinition {
    /// Opaque ID.
    pub id: AffixDefinitionId,
    pub placement: AffixPlacement,
    pub tiers: BTreeMap<AffixTierId, AffixDefinitionTier>,
    pub name: String,
}

impl AffixDefinitionTier {
    /// A tier is valid when its number is not zero and it rolls at least one stat.
    pub open spec fn is_valid(&self) -> bool {
        self.tier > 0 && self.stats@.len() > 0
    }

    pub fn validate(&self) -> (valid: bool)
        ensures
            valid == self.is_valid(),
    {
        self.tier > 0 && !self.stats.is_empty()
    }
}

/// The tiers whose ids are from 1 to `upper`, in increasing order of id.
pub open spec fn tiers_up_to<V>(tiers: Map<AffixTierId, V>, upper: int) -> Seq<V>
    decreases upper,
{
    if upper < 1 {
        Seq::empty()
    } else {
        let earlier = tiers_up_to(tiers, upper - 1);
        if upper <= 65535 && tiers.contains_key(upper as u16) {
            earlier.push(tiers[upper as u16])
        } else {
            earlier
        }
    }
}

/// The tiers whose ids are from 0 to `upper`, in increasing order of id.
spec fn tiers_from_zero_up_to<V>(tiers: Map<AffixTierId, V>, upper: int) -> Seq<V>
    decreases upper + 1,
{
    if upper < 0 {
        Seq::empty()
    } else {
        let earlier = tiers_from_zero_up_to(tiers, upper - 1);
        if upper <= 65535 && tiers.contains_key(upper as u16) {
            earlier.push(tiers[upper as u16])
        } else {
            earlier
        }
    }
}

/// Counting from id 1 leaves out just the tier with id 0, which comes first when counting
/// from 0.
proof fn lemma_tiers_from_one<V>(tiers: Map<AffixTierId, V>, upper: int)
    requires
        upper >= 0,
    ensures
        tiers.contains_key(0) ==> tiers_from_zero_up_to(tiers, upper).len() >= 1
            && tiers_from_zero_up_to(tiers, upper)[0] == tiers[0],
        tiers_up_to(tiers, upper) == if tiers.contains_key(0) {
            tiers_from_zero_up_to(tiers, upper).drop_first()
        } else {
            tiers_from_zero_up_to(tiers, upper)
        },
    decreases upper,
{
    if upper == 0 {
        assert(tiers_from_zero_up_to(tiers, -1) == Seq::<V>::empty());
        if tiers.contains_key(0) {
            assert(tiers_from_zero_up_to(tiers, 0) == seq![tiers[0]]);
            assert(seq![tiers[0]].drop_first() == Seq::<V>::empty());
        }
    } else {
        lemma_tiers_from_one(tiers, upper - 1);
        let earlier = tiers_from_zero_up_to(tiers, upper - 1);
        if upper <= 65535 && tiers.contains_key(upper as u16) {
            let x = tiers[upper as u16];
            if tiers.contains_key(0) {
                assert(earlier.push(x).drop_first() == earlier.drop_first().push(x));
            }
        }
    }
}

/// No tier id lies strictly above `low` and at most `high`.
pub open spec fn no_tier_between<V>(tiers: Map<AffixTierId, V>, low: int, high: int) -> bool {
    forall|id: AffixTierId| #[trigger] tiers.contains_key(id) ==> !(low < id <= high)
}

proof fn lemma_tiers_up_to_skip<V>(tiers: Map<AffixTierId, V>, low: int, high: int)
    requires
        -1 <= low <= high,
        no_tier_between(tiers, low, high),
    ensures
        tiers_from_zero_up_to(tiers, high) == tiers_from_zero_up_to(tiers, low),
    decreases high - low,
{
    if high > low {
        lemma_tiers_up_to_skip(tiers, low, high - 1);
        if high <= 65535 && tiers.contains_key(high as u16) {
            assert(low < (high as u16) <= high);
        }
    }
}

/// The entries of a tier map as a sorted, complete list: keys strictly increase, each entry
/// is in the map, and each key of the map has an entry.
pub open spec fn sorted_entries<V>(tiers: Map<AffixTierId, V>, entries: Seq<(AffixTierId, V)>) -> bool {
    &&& forall|i: int, j: int| 0 <= i < j < entries.len() ==> (#[trigger] entries[i]).0 < (#[trigger] entries[j]).0
    &&& forall|i: int| #![trigger entries[i]] 0 <= i < entries.len() ==> tiers.contains_key(entries[i].0) && tiers[entries[i].0] == entries[i].1
    &&& forall|id: AffixTierId| #[trigger] tiers.contains_key(id) ==> exists|i: int| 0 <= i < entries.len() && entries[i].0 == id
}

/// The key below which the first `p` sorted entries lie: the key of entry `p`, or one past
/// every `u16` when `p` is the end.
pub open spec fn key_bound<V>(entries: Seq<(AffixTierId, V)>, p: int) -> int {
    if p < entries.len() {
        entries[p].0 as int
    } else {
        65536
    }
}

proof fn lemma_sorted_prefix<V>(tiers: Map<AffixTierId, V>, entries: Seq<(AffixTierId, V)>, p: int)
    requires
        sorted_entries(tiers, entries),
        0 <= p <= entries.len(),
    ensures
        tiers_from_zero_up_to(tiers, key_bound(entries, p) - 1) == entries.take(p).map_values(|e: (AffixTierId, V)| e.1),
    decreases p,
{
    if p == 0 {
        assert forall|id: AffixTierId| #[trigger] tiers.contains_key(id) implies !(-1 < id <= key_bound(entries, 0) - 1) by {
            let i = choose|i: int| 0 <= i < entries.len() && entries[i].0 == id;
            if i > 0 {
                assert(entries[0].0 < entries[i].0);
            }
        }
        lemma_tiers_up_to_skip(tiers, -1, key_bound(entries, 0) - 1);
        assert(entries.take(0).map_values(|e: (AffixTierId, V)| e.1) == Seq::<V>::empty());
    } else {
        lemma_sorted_prefix(tiers, entries, p - 1);
        let k = entries[p - 1].0 as int;
        assert forall|id: AffixTierId| #[trigger] tiers.contains_key(id) implies !(k < id <= key_bound(entries, p) - 1) by {
            let i = choose|i: int| 0 <= i < entries.len() && entries[i].0 == id;
            if i < p - 1 {
                assert(entries[i].0 < entries[p - 1].0);
            } else if i > p - 1 && p < entries.len() {
                if i > p {
                    assert(entries[p].0 < entries[i].0);
                }
            }
        }
        lemma_tiers_up_to_skip(tiers, k, key_bound(entries, p) - 1);
        assert(tiers.contains_key(k as u16));
        assert(tiers_from_zero_up_to(tiers, k) == tiers_from_zero_up_to(tiers, k - 1).push(tiers[k as u16]));
        assert(entries.take(p).map_values(|e: (AffixTierId, V)| e.1) == entries.take(p - 1).map_values(|e: (AffixTierId, V)| e.1).push(entries[p - 1].1));
    }
}

/// Every tier of a definition is valid.
pub open spec fn all_tiers_valid(tiers: Map<AffixTierId, AffixDefinitionTier>) -> bool {
    forall|id: AffixTierId| #[trigger] tiers.contains_key(id) ==> tiers[id].is_valid()
}

proof fn lemma_tier_entries_sorted(tiers: &BTreeMap<AffixTierId, AffixDefinitionTier>)
    requires
        vstd::std_specs::btree::increasing_seq(
            tiers.iter().remaining().map_values(|kv: (&AffixTierId, &AffixDefinitionTier)| *kv.0),
        ),
    ensures
        sorted_entries(
            tiers@,
            tiers.iter().remaining().map_values(
                |kv: (&AffixTierId, &AffixDefinitionTier)| (*kv.0, *kv.1),
            ),
        ),
{
    let m = tiers@;
    let raw = tiers.iter().remaining();
    let entries = raw.map_values(|kv: (&AffixTierId, &AffixDefinitionTier)| (*kv.0, *kv.1));
    let keys = raw.map_values(|kv: (&AffixTierId, &AffixDefinitionTier)| *kv.0);
    assert(vstd::laws_cmp::obeys_cmp::<AffixTierId>());
    assert forall|i: int, j: int| 0 <= i < j < entries.len() implies (#[trigger] entries[i]).0 < (
    #[trigger] entries[j]).0 by {
        assert(keys[i] == entries[i].0 && keys[j] == entries[j].0);
        assert(keys[i].cmp_spec(&keys[j]) is Less);
    }
    assert forall|i: int| 0 <= i < entries.len() implies m.contains_key(entries[i].0) && m[entries[i].0]
        == entries[i].1 by {
        assert(m.contains_key(*raw[i].0));
    }
    assert forall|id: AffixTierId| #[trigger] m.contains_key(id) implies exists|i: int|
        0 <= i < entries.len() && entries[i].0 == id by {
        assert(raw.contains((&id, &m[id])));
        let i = choose|i: int| 0 <= i < raw.len() && raw[i] == (&id, &m[id]);
        assert(entries[i].0 == id);
    }
}

/// The tiers of a list of tier references, by value.
pub open spec fn tier_values(tiers: Seq<&AffixDefinitionTier>) -> Seq<AffixDefinitionTier> {
    tiers.map_values(|t: &AffixDefinitionTier| *t)
}

impl AffixDefinition {
    /// Gets all [AffixDefinitionTier]s, starting at [AffixTierId] 1, in increasing order of
    /// tier id.
    pub fn tiers(&self) -> (tiers: Vec<&AffixDefinitionTier>)
        ensures
            tier_values(tiers@) == tiers_up_to(self.tiers@, 65535),
    {
        self.tiers_to(&AffixTierId::MAX)
    }

    /// Gets all [AffixDefinitionTier]s of an [AffixDefinition], starting at [AffixTierId] 1 and
    /// ending at `upper_tier`, inclusive, in increasing order of tier id.
    pub fn tiers_to(&self, upper_tier: &AffixTierId) -> (tiers: Vec<&AffixDefinitionTier>)
        ensures
            tier_values(tiers@) == tiers_up_to(self.tiers@, *upper_tier as int),
    {
        let upper = *upper_tier;
        let mut tiers: Vec<&AffixDefinitionTier> = Vec::new();
        let ghost entries = self.tiers.iter().remaining().map_values(
            |kv: (&AffixTierId, &AffixDefinitionTier)| (*kv.0, *kv.1),
        );
        let ghost mut stop: int = entries.len() as int;
        for (affix_tier_id, affix_tier) in it: self.tiers.iter()
            invariant_except_break
                tier_values(tiers@) == entries.take(it.index() as int).map_values(
                    |e: (AffixTierId, AffixDefinitionTier)| e.1,
                ),
                forall|i: int| 0 <= i < it.index() ==> (#[trigger] entries[i]).0 <= upper,
                stop == entries.len(),
            invariant
                it.seq().map_values(|kv: (&AffixTierId, &AffixDefinitionTier)| (*kv.0, *kv.1)) == entries,
                entries.len() == it.seq().len(),
                vstd::std_specs::btree::increasing_seq(
                    it.seq().map_values(|kv: (&AffixTierId, &AffixDefinitionTier)| *kv.0),
                ),
            ensures
                tier_values(tiers@) == entries.take(stop).map_values(
                    |e: (AffixTierId, AffixDefinitionTier)| e.1,
                ),
                0 <= stop <= entries.len(),
                forall|i: int| 0 <= i < stop ==> (#[trigger] entries[i]).0 <= upper,
                stop < entries.len() ==> entries[stop].0 > upper,
                vstd::std_specs::btree::increasing_seq(
                    self.tiers.iter().remaining().map_values(|kv: (&AffixTierId, &AffixDefinitionTier)| *kv.0),
                ),
        {
            if *affix_tier_id > upper {
                proof {
                    stop = it.index() as int;
                    assert(entries[stop].0 == *affix_tier_id);
                }
                break;
            }
            let ghost k = it.index() as int;
            let ghost before = tiers@;
            proof {
                assert(entries[k] == (*affix_tier_id, *affix_tier));
            }
            tiers.push(affix_tier);
            proof {
                assert(tier_values(tiers@) =~= tier_values(before).push(*affix_tier));
                assert(entries.take(k + 1).map_values(|e: (AffixTierId, AffixDefinitionTier)| e.1)
                    =~= entries.take(k).map_values(|e: (AffixTierId, AffixDefinitionTier)| e.1).push(entries[k].1));
            }
        }
        proof {
            let m = self.tiers@;
            let raw = self.tiers.iter().remaining();
            assert(raw.map_values(|kv: (&AffixTierId, &AffixDefinitionTier)| (*kv.0, *kv.1)) == entries);
            lemma_tier_entries_sorted(&self.tiers);
            lemma_sorted_prefix(m, entries, stop);
            assert forall|id: AffixTierId| #[trigger] m.contains_key(id) implies !(upper < id <= key_bound(entries, stop) - 1) by {
                let i = choose|i: int| 0 <= i < entries.len() && entries[i].0 == id;
                if i < stop {
                } else if i > stop {
                    assert(entries[stop].0 < entries[i].0);
                }
            }
            lemma_tiers_up_to_skip(m, upper as int, key_bound(entries, stop) - 1);
            lemma_tiers_from_one(m, upper as int);
        }
        if self.tiers.contains_key(&0) {
            let ghost before = tiers@;
            tiers.remove(0);
            assert(tier_values(tiers@) =~= tier_values(before).drop_first());
        }
        tiers
    }
}

impl DataDefinition for AffixDefinition {
    type DefinitionTypeId = AffixDefinitionId;

    open spec fn definition_id(&self) -> AffixDefinitionId {
        self.id
    }

    open spec fn numeric_id(&self) -> u64 {
        self.id as u64
    }

    /// An affix definition is valid when its id is not zero, its placement is a prefix or a
    /// suffix, and it has at least one tier, all of them valid.
    open spec fn is_valid(&self) -> bool {
        &&& self.id > 0
        &&& self.placement != AffixPlacement::Invalid
        &&& self.tiers@.dom().len() > 0
        &&& all_tiers_valid(self.tiers@)
    }

    fn id(&self) -> (id: u64) {
        self.id as u64
    }

    fn validate(&self) -> (valid: bool) {
        if self.id == 0 || self.placement == AffixPlacement::Invalid || self.tiers.is_empty() {
            return false;
        }
        let mut all_valid = true;
        let ghost entries = self.tiers.iter().remaining();
        for (tier_id, tier) in it: self.tiers.iter()
            invariant
                it.seq() == entries,
                entries == self.tiers.iter().remaining(),
                all_valid == forall|i: int| 0 <= i < it.index() ==> (#[trigger] entries[i]).1.is_valid(),
        {
            if !tier.validate() {
                all_valid = false;
            }
        }
        proof {
            assert(entries.len() == self.tiers@.dom().len());
            if all_valid {
                assert forall|id: AffixTierId| #[trigger] self.tiers@.contains_key(id) implies self.tiers@[id].is_valid() by {
                    assert(entries.contains((&id, &self.tiers@[id])));
                    let i = choose|i: int| 0 <= i < entries.len() && entries[i] == (&id, &self.tiers@[id]);
                    assert(entries[i].1.is_valid());
                }
            } else {
                let i = choose|i: int| 0 <= i < entries.len() && !(#[trigger] entries[i]).1.is_valid();
                assert(self.tiers@.contains_key(*entries[i].0));
                assert(!all_tiers_valid(self.tiers@));
            }
        }
        all_valid
    }
}


#[derive(Debug)]
pub struct AffixDefinitionDatabase {
    affixes: HashMap<AffixDefinitionId, AffixDefinition>,
}

impl AffixDefinitionDatabase {
    #[verifier::type_invariant]
    spec fn keys_are_ids(&self) -> bool {
        keyed_by_id(self.affixes@)
    }

    /// Takes a definition out of the database to edit it; adding it back puts the edits in.
    pub fn take_definition(&mut self, id: AffixDefinitionId) -> (taken: Option<AffixDefinition>)
        ensures
            taken is Some <==> old(self).contents().contains_key(id),
            taken matches Some(definition) ==> definition == old(self).contents()[id],
            final(self).contents() == old(self).contents().remove(id),
    {
        proof {
            use_type_invariant(&*self);
        }
        let mut affixes = HashMap::new();
        std::mem::swap(&mut affixes, &mut self.affixes);
        let taken = affixes.remove(&id);
        self.affixes = affixes;
        taken
    }

    /// Builds a database from definitions in the order they were loaded; a later definition
    /// replaces an earlier one with the same id.
    pub fn from_definitions(definitions: Vec<AffixDefinition>) -> (database: Self)
        ensures
            database.contents() == definitions_by_id(definitions@),
    {
        let mut affixes: HashMap<AffixDefinitionId, AffixDefinition> = HashMap::new();
        let ghost all = definitions@;
        let mut i: usize = 0;
        let count = definitions.len();
        let mut remaining = definitions;
        proof {
            lemma_definitions_by_id_keyed(all.take(0));
            assert(all.take(0) == Seq::<AffixDefinition>::empty());
        }
        while remaining.len() > 0
            invariant
                0 <= i <= all.len(),
                all.len() <= usize::MAX,
                remaining@.len() == all.len() - i,
                remaining@ == all.skip(i as int),
                affixes@ == definitions_by_id(all.take(i as int)),
            decreases remaining@.len(),
        {
            let definition = remaining.remove(0);
            assert(definition == all[i as int]);
            assert(all.take(i as int + 1).drop_last() == all.take(i as int));
            affixes.insert(definition.id, definition);
            i = i + 1;
        }
        assert(all.take(all.len() as int) == all);
        proof {
            lemma_definitions_by_id_keyed(all);
        }
        AffixDefinitionDatabase { affixes }
    }
}

impl DataDefinitionDatabase<AffixDefinition> for AffixDefinitionDatabase {
    closed spec fn contents(&self) -> Map<AffixDefinitionId, AffixDefinition> {
        self.affixes@
    }

    /// Affixes are entirely self-contained (no references to other data)
    /// so we only check if there is at least 1 affix and all loaded affixes are valid.
    fn validate(&self) -> (loaded: bool) {
        all_definitions_valid(&self.affixes)
    }

    fn definition(&self, id: AffixDefinitionId) -> (found: Option<&AffixDefinition>) {
        proof {
            use_type_invariant(self);
        }
        self.affixes.get(&id)
    }

    fn definitions(&self) -> (all: Vec<&AffixDefinition>) {
        proof {
            use_type_invariant(self);
        }
        list_definitions(&self.affixes)
    }

    fn add_definition(&mut self, definition: AffixDefinition) {
        proof {
            use_type_invariant(&*self);
        }
        let mut affixes = HashMap::new();
        std::mem::swap(&mut affixes, &mut self.affixes);
        affixes.insert(definition.id, definition);
        self.affixes = affixes;
    }
}

} // verus!
