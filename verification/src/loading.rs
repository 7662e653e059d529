//! Loading data: the data files name other definitions by id. A record holds what a file
//! gives for one definition, ids included; resolving it looks every id up in the database
//! already loaded and gives the definition that holds what the ids name.
//!
//! A field that the file leaves out keeps the default that loading starts from: 0 for an id
//! or a weight, an empty name or list, an invalid classification, and no value at all for a
//! reference, which resolving then requires.

use crate::affix::{AffixDefinition, AffixDefinitionDatabase, AffixDefinitionId, AffixTierId};
use crate::affix_generation::AffixInstance;
use crate::affix_pool::{
    AffixPoolDefinition, AffixPoolDefinitionDatabase, AffixPoolDefinitionId, AffixPoolMember,
};
use crate::data::DataDefinitionDatabase;
use crate::item::{ItemClassification, ItemDefinition, ItemDefinitionDatabase, ItemDefinitionId, ItemInstance};
use crate::loot_pool::{LootPoolDefinition, LootPoolDefinitionId, LootPoolMember};
use vstd::prelude::*;

verus! {

/// A member of an affix pool as a data file gives it.
#[derive(Clone, Copy, Debug)]
pub struct AffixPoolMemberRecord {
    pub affix_id: Option<AffixDefinitionId>,
    pub weight: u64,
}

/// An affix pool as a data file gives it.
#[derive(Clone, Debug)]
pub struct AffixPoolDefinitionRecord {
    pub id: AffixPoolDefinitionId,
    pub members: Vec<AffixPoolMemberRecord>,
    pub name: String,
}

/// An item definition as a data file gives it.
#[derive(Clone, Debug)]
pub struct ItemDefinitionRecord {
    pub id: ItemDefinitionId,
    pub classification: ItemClassification,
    pub affix_pool_ids: Vec<AffixPoolDefinitionId>,
    pub fixed_affix_ids: Vec<AffixDefinitionId>,
    pub name: String,
}

/// A member of a loot pool as a data file gives it.
#[derive(Clone, Copy, Debug)]
pub struct LootPoolMemberRecord {
    pub item_id: Option<ItemDefinitionId>,
    pub weight: u64,
}

/// A loot pool as a data file gives it.
#[derive(Clone, Debug)]
pub struct LootPoolDefinitionRecord {
    pub id: LootPoolDefinitionId,
    pub name: String,
    pub members: Vec<LootPoolMemberRecord>,
}

/// An affix of a saved item, with stats `S`, as a save file gives it.
#[derive(Clone, Debug)]
pub struct AffixInstanceRecord<S> {
    pub affix_def_id: Option<AffixDefinitionId>,
    pub tier: Option<AffixTierId>,
    pub stats: Option<S>,
}

/// A saved item, whose affixes carry stats `S`, as a save file gives it.
#[derive(Clone, Debug)]
pub struct ItemInstanceRecord<S> {
    pub guid: String,
    pub item_def_id: Option<ItemDefinitionId>,
    pub affixes: Vec<AffixInstanceRecord<S>>,
}

/// An id that names a definition the database holds.
pub open spec fn names_definition<K, D>(id: Option<K>, contents: Map<K, D>) -> bool {
    id matches Some(key) && contents.contains_key(key)
}

/// Every id of the list names a definition that the database holds.
pub open spec fn all_named<K, D>(ids: Seq<K>, contents: Map<K, D>) -> bool {
    forall|i: int| 0 <= i < ids.len() ==> contents.contains_key(#[trigger] ids[i])
}

/// The pool member that a record resolves to: the affix it names, with its weight.
pub open spec fn resolves_member<'db>(
    member: AffixPoolMember<'db>,
    record: AffixPoolMemberRecord,
    affix_db: AffixDefinitionDatabase,
) -> bool {
    &&& *member.affix_def == affix_db.contents()[record.affix_id->0]
    &&& member.affix_def.id == record.affix_id->0
    &&& member.weight == record.weight
}

/// Every member of the pool record names an affix that the database holds.
pub open spec fn pool_record_resolvable(record: AffixPoolDefinitionRecord, affix_db: AffixDefinitionDatabase) -> bool {
    forall|i: int|
        0 <= i < record.members@.len() ==> names_definition(
            (#[trigger] record.members@[i]).affix_id,
            affix_db.contents(),
        )
}

/// The affix pool that a record resolves to: its id and name, and its members in order.
pub open spec fn resolves_pool<'db>(
    pool: AffixPoolDefinition<'db>,
    record: AffixPoolDefinitionRecord,
    affix_db: AffixDefinitionDatabase,
) -> bool {
    &&& pool.id == record.id
    &&& pool.name@ == record.name@
    &&& pool.members@.len() == record.members@.len()
    &&& forall|i: int|
        0 <= i < pool.members@.len() ==> resolves_member(
            #[trigger] pool.members@[i],
            record.members@[i],
            affix_db,
        )
}

/// Every pool and every fixed affix that the item record names is held by its database.
pub open spec fn item_record_resolvable<'db>(
    record: ItemDefinitionRecord,
    affix_db: AffixDefinitionDatabase,
    pool_db: AffixPoolDefinitionDatabase<'db>,
) -> bool {
    &&& all_named(record.affix_pool_ids@, pool_db.contents())
    &&& all_named(record.fixed_affix_ids@, affix_db.contents())
}

/// The item definition that a record resolves to: its id, classification and name, and the
/// pools and fixed affixes it names, in order.
pub open spec fn resolves_item<'db>(
    item: ItemDefinition<'db>,
    record: ItemDefinitionRecord,
    affix_db: AffixDefinitionDatabase,
    pool_db: AffixPoolDefinitionDatabase<'db>,
) -> bool {
    &&& item.id == record.id
    &&& item.classification == record.classification
    &&& item.name@ == record.name@
    &&& item.affix_pools@.len() == record.affix_pool_ids@.len()
    &&& forall|i: int|
        0 <= i < item.affix_pools@.len() ==> *(#[trigger] item.affix_pools@[i])
            == pool_db.contents()[record.affix_pool_ids@[i]]
            && item.affix_pools@[i].id == record.affix_pool_ids@[i]
    &&& item.fixed_affixes@.len() == record.fixed_affix_ids@.len()
    &&& forall|i: int|
        0 <= i < item.fixed_affixes@.len() ==> *(#[trigger] item.fixed_affixes@[i])
            == affix_db.contents()[record.fixed_affix_ids@[i]]
            && item.fixed_affixes@[i].id == record.fixed_affix_ids@[i]
}

/// Every member of the loot pool record names an item that the database holds.
pub open spec fn loot_record_resolvable<'db>(record: LootPoolDefinitionRecord, item_db: ItemDefinitionDatabase<'db>) -> bool {
    forall|i: int|
        0 <= i < record.members@.len() ==> names_definition(
            (#[trigger] record.members@[i]).item_id,
            item_db.contents(),
        )
}

/// The loot pool that a record resolves to: its id and name, and for each member the item
/// it names, with its weight.
pub open spec fn resolves_loot_pool<'db>(
    pool: LootPoolDefinition<'db>,
    record: LootPoolDefinitionRecord,
    item_db: ItemDefinitionDatabase<'db>,
) -> bool {
    &&& pool.id == record.id
    &&& pool.name@ == record.name@
    &&& pool.members@.len() == record.members@.len()
    &&& forall|i: int|
        0 <= i < pool.members@.len() ==> *(#[trigger] pool.members@[i]).item_def
            == item_db.contents()[record.members@[i].item_id->0]
            && pool.members@[i].item_def.id == record.members@[i].item_id->0
            && pool.members@[i].weight == record.members@[i].weight
}

/// The saved affix record names an affix the database holds, and gives its tier and stats.
pub open spec fn affix_record_resolvable<S>(record: AffixInstanceRecord<S>, affix_db: AffixDefinitionDatabase) -> bool {
    &&& names_definition(record.affix_def_id, affix_db.contents())
    &&& record.tier is Some
    &&& record.stats is Some
}

/// The affix that a saved record resolves to.
pub open spec fn resolves_affix<'db, S>(
    affix: AffixInstance<'db, S>,
    record: AffixInstanceRecord<S>,
    affix_db: AffixDefinitionDatabase,
) -> bool {
    &&& *affix.definition == affix_db.contents()[record.affix_def_id->0]
    &&& affix.definition.id == record.affix_def_id->0
    &&& affix.tier == record.tier->0
    &&& affix.stats == record.stats->0
}

/// The saved item record names an item definition the database holds, and each of its
/// affixes can be resolved.
pub open spec fn instance_record_resolvable<'db, S>(
    record: ItemInstanceRecord<S>,
    affix_db: AffixDefinitionDatabase,
    item_db: ItemDefinitionDatabase<'db>,
) -> bool {
    &&& names_definition(record.item_def_id, item_db.contents())
    &&& forall|i: int|
        0 <= i < record.affixes@.len() ==> affix_record_resolvable(#[trigger] record.affixes@[i], affix_db)
}

/// The item that a saved record resolves to: its id, the definition it names, and its
/// affixes in order.
pub open spec fn resolves_instance<'db, S>(
    item: ItemInstance<'db, S>,
    record: ItemInstanceRecord<S>,
    affix_db: AffixDefinitionDatabase,
    item_db: ItemDefinitionDatabase<'db>,
) -> bool {
    &&& item.guid@ == record.guid@
    &&& *item.definition == item_db.contents()[record.item_def_id->0]
    &&& item.definition.id == record.item_def_id->0
    &&& item.affixes@.len() == record.affixes@.len()
    &&& forall|i: int|
        0 <= i < item.affixes@.len() ==> resolves_affix(
            #[trigger] item.affixes@[i],
            record.affixes@[i],
            affix_db,
        )
}

/// The affix pool member that a record names.
pub fn resolve_affix_pool_member<'db>(
    record: AffixPoolMemberRecord,
    affix_db: &'db AffixDefinitionDatabase,
) -> (member: AffixPoolMember<'db>)
    requires
        names_definition(record.affix_id, affix_db.contents()),
    ensures
        resolves_member(member, record, *affix_db),
{
    let affix_def = affix_db.definition(record.affix_id.unwrap()).unwrap();
    AffixPoolMember { affix_def, weight: record.weight }
}

/// The affix pool that a record describes, with each member's affix looked up.
pub fn resolve_affix_pool<'db>(
    record: AffixPoolDefinitionRecord,
    affix_db: &'db AffixDefinitionDatabase,
) -> (pool: AffixPoolDefinition<'db>)
    requires
        pool_record_resolvable(record, *affix_db),
    ensures
        resolves_pool(pool, record, *affix_db),
{
    let mut members: Vec<AffixPoolMember<'db>> = Vec::new();
    let mut i: usize = 0;
    while i < record.members.len()
        invariant
            0 <= i <= record.members@.len(),
            pool_record_resolvable(record, *affix_db),
            members@.len() == i,
            forall|k: int| 0 <= k < i ==> resolves_member(#[trigger] members@[k], record.members@[k], *affix_db),
        decreases record.members@.len() - i,
    {
        let member = resolve_affix_pool_member(record.members[i], affix_db);
        members.push(member);
        i = i + 1;
    }
    AffixPoolDefinition { id: record.id, members, name: record.name }
}

/// The item definition that a record describes, with its pools and fixed affixes looked up.
pub fn resolve_item_definition<'db>(
    record: ItemDefinitionRecord,
    affix_db: &'db AffixDefinitionDatabase,
    pool_db: &'db AffixPoolDefinitionDatabase<'db>,
) -> (item: ItemDefinition<'db>)
    requires
        item_record_resolvable(record, *affix_db, *pool_db),
    ensures
        resolves_item(item, record, *affix_db, *pool_db),
{
    let mut affix_pools: Vec<&'db AffixPoolDefinition<'db>> = Vec::new();
    let mut i: usize = 0;
    while i < record.affix_pool_ids.len()
        invariant
            0 <= i <= record.affix_pool_ids@.len(),
            all_named(record.affix_pool_ids@, pool_db.contents()),
            affix_pools@.len() == i,
            forall|k: int|
                0 <= k < i ==> *(#[trigger] affix_pools@[k]) == pool_db.contents()[record.affix_pool_ids@[k]]
                    && affix_pools@[k].id == record.affix_pool_ids@[k],
        decreases record.affix_pool_ids@.len() - i,
    {
        assert(pool_db.contents().contains_key(record.affix_pool_ids@[i as int]));
        affix_pools.push(pool_db.definition(record.affix_pool_ids[i]).unwrap());
        i = i + 1;
    }
    let mut fixed_affixes: Vec<&'db AffixDefinition> = Vec::new();
    let mut j: usize = 0;
    while j < record.fixed_affix_ids.len()
        invariant
            0 <= j <= record.fixed_affix_ids@.len(),
            all_named(record.fixed_affix_ids@, affix_db.contents()),
            fixed_affixes@.len() == j,
            forall|k: int|
                0 <= k < j ==> *(#[trigger] fixed_affixes@[k]) == affix_db.contents()[record.fixed_affix_ids@[k]]
                    && fixed_affixes@[k].id == record.fixed_affix_ids@[k],
        decreases record.fixed_affix_ids@.len() - j,
    {
        assert(affix_db.contents().contains_key(record.fixed_affix_ids@[j as int]));
        fixed_affixes.push(affix_db.definition(record.fixed_affix_ids[j]).unwrap());
        j = j + 1;
    }
    ItemDefinition {
        id: record.id,
        classification: record.classification,
        affix_pools,
        fixed_affixes,
        name: record.name,
    }
}

/// The loot pool that a record describes, with each member's item looked up.
pub fn resolve_loot_pool<'db>(
    record: LootPoolDefinitionRecord,
    item_db: &'db ItemDefinitionDatabase<'db>,
) -> (pool: LootPoolDefinition<'db>)
    requires
        loot_record_resolvable(record, *item_db),
    ensures
        resolves_loot_pool(pool, record, *item_db),
{
    let mut members: Vec<LootPoolMember<'db>> = Vec::new();
    let mut i: usize = 0;
    while i < record.members.len()
        invariant
            0 <= i <= record.members@.len(),
            loot_record_resolvable(record, *item_db),
            members@.len() == i,
            forall|k: int|
                0 <= k < i ==> *(#[trigger] members@[k]).item_def == item_db.contents()[record.members@[k].item_id->0]
                    && members@[k].item_def.id == record.members@[k].item_id->0
                    && members@[k].weight == record.members@[k].weight,
        decreases record.members@.len() - i,
    {
        let member_record = record.members[i];
        assert(names_definition(record.members@[i as int].item_id, item_db.contents()));
        let item_def = item_db.definition(member_record.item_id.unwrap()).unwrap();
        members.push(LootPoolMember { item_def, weight: member_record.weight });
        i = i + 1;
    }
    LootPoolDefinition { id: record.id, name: record.name, members }
}

/// The saved item that a record describes, with its definition and the definitions of its
/// affixes looked up.
pub fn resolve_item_instance<'db, S>(
    record: ItemInstanceRecord<S>,
    affix_db: &'db AffixDefinitionDatabase,
    item_db: &'db ItemDefinitionDatabase<'db>,
) -> (item: ItemInstance<'db, S>)
    requires
        instance_record_resolvable(record, *affix_db, *item_db),
    ensures
        resolves_instance(item, record, *affix_db, *item_db),
{
    let definition = item_db.definition(record.item_def_id.unwrap()).unwrap();
    let ghost all = record.affixes@;
    let mut remaining = record.affixes;
    let mut affixes: Vec<AffixInstance<'db, S>> = Vec::new();
    while remaining.len() > 0
        invariant
            affixes@.len() + remaining@.len() == all.len(),
            remaining@ == all.skip(affixes@.len() as int),
            forall|k: int| 0 <= k < all.len() ==> affix_record_resolvable(#[trigger] all[k], *affix_db),
            forall|k: int| 0 <= k < affixes@.len() ==> resolves_affix(#[trigger] affixes@[k], all[k], *affix_db),
        decreases remaining@.len(),
    {
        let ghost k = affixes@.len() as int;
        let affix_record = remaining.remove(0);
        assert(affix_record == all[k]);
        assert(remaining@ == all.skip(k + 1));
        let affix_def = affix_db.definition(affix_record.affix_def_id.unwrap()).unwrap();
        let tier = affix_record.tier.unwrap();
        let stats = affix_record.stats.unwrap();
        affixes.push(AffixInstance { definition: affix_def, tier, stats });
    }
    ItemInstance { guid: record.guid, definition, affixes }
}

impl AffixPoolDefinitionRecord {
    /// Whether every member names an affix that the database holds.
    pub fn can_resolve(&self, affix_db: &AffixDefinitionDatabase) -> (resolvable: bool)
        ensures
            resolvable == pool_record_resolvable(*self, *affix_db),
    {
        let mut i: usize = 0;
        while i < self.members.len()
            invariant
                0 <= i <= self.members@.len(),
                forall|k: int| 0 <= k < i ==> names_definition((#[trigger] self.members@[k]).affix_id, affix_db.contents()),
            decreases self.members@.len() - i,
        {
            let known = match self.members[i].affix_id {
                Some(id) => affix_db.definition(id).is_some(),
                None => false,
            };
            if !known {
                return false;
            }
            i = i + 1;
        }
        true
    }
}

/// Whether every id of the list names a definition that the database holds.
fn all_pools_named<'db>(ids: &Vec<AffixPoolDefinitionId>, pool_db: &AffixPoolDefinitionDatabase<'db>) -> (named: bool)
    ensures
        named == all_named(ids@, pool_db.contents()),
{
    let mut i: usize = 0;
    while i < ids.len()
        invariant
            0 <= i <= ids@.len(),
            forall|k: int| 0 <= k < i ==> pool_db.contents().contains_key(#[trigger] ids@[k]),
        decreases ids@.len() - i,
    {
        if pool_db.definition(ids[i]).is_none() {
            return false;
        }
        i = i + 1;
    }
    true
}

/// Whether every id of the list names an affix that the database holds.
fn all_affixes_named(ids: &Vec<AffixDefinitionId>, affix_db: &AffixDefinitionDatabase) -> (named: bool)
    ensures
        named == all_named(ids@, affix_db.contents()),
{
    let mut i: usize = 0;
    while i < ids.len()
        invariant
            0 <= i <= ids@.len(),
            forall|k: int| 0 <= k < i ==> affix_db.contents().contains_key(#[trigger] ids@[k]),
        decreases ids@.len() - i,
    {
        if affix_db.definition(ids[i]).is_none() {
            return false;
        }
        i = i + 1;
    }
    true
}

impl ItemDefinitionRecord {
    /// Whether every pool and fixed affix named is held by its database.
    pub fn can_resolve<'db>(
        &self,
        affix_db: &AffixDefinitionDatabase,
        pool_db: &AffixPoolDefinitionDatabase<'db>,
    ) -> (resolvable: bool)
        ensures
            resolvable == item_record_resolvable(*self, *affix_db, *pool_db),
    {
        all_pools_named(&self.affix_pool_ids, pool_db) && all_affixes_named(&self.fixed_affix_ids, affix_db)
    }
}

impl LootPoolDefinitionRecord {
    /// Whether every member names an item that the database holds.
    pub fn can_resolve<'db>(&self, item_db: &ItemDefinitionDatabase<'db>) -> (resolvable: bool)
        ensures
            resolvable == loot_record_resolvable(*self, *item_db),
    {
        let mut i: usize = 0;
        while i < self.members.len()
            invariant
                0 <= i <= self.members@.len(),
                forall|k: int| 0 <= k < i ==> names_definition((#[trigger] self.members@[k]).item_id, item_db.contents()),
            decreases self.members@.len() - i,
        {
            let known = match self.members[i].item_id {
                Some(id) => item_db.definition(id).is_some(),
                None => false,
            };
            if !known {
                return false;
            }
            i = i + 1;
        }
        true
    }
}

impl<S> ItemInstanceRecord<S> {
    /// Whether the definition and every affix named are held by their databases, and every
    /// affix gives its tier and stats.
    pub fn can_resolve<'db>(
        &self,
        affix_db: &AffixDefinitionDatabase,
        item_db: &ItemDefinitionDatabase<'db>,
    ) -> (resolvable: bool)
        ensures
            resolvable == instance_record_resolvable(*self, *affix_db, *item_db),
    {
        let known = match self.item_def_id {
            Some(id) => item_db.definition(id).is_some(),
            None => false,
        };
        if !known {
            return false;
        }
        let mut i: usize = 0;
        while i < self.affixes.len()
            invariant
                0 <= i <= self.affixes@.len(),
                forall|k: int| 0 <= k < i ==> affix_record_resolvable(#[trigger] self.affixes@[k], *affix_db),
            decreases self.affixes@.len() - i,
        {
            let affix = &self.affixes[i];
            let named = match affix.affix_def_id {
                Some(id) => affix_db.definition(id).is_some(),
                None => false,
            };
            if !(named && affix.tier.is_some() && affix.stats.is_some()) {
                return false;
            }
            i = i + 1;
        }
        true
    }
}

/// The record of an affix pool, as its data file holds it: its members name their affixes
/// by id.
pub open spec fn records_pool<'db>(record: AffixPoolDefinitionRecord, pool: AffixPoolDefinition<'db>) -> bool {
    &&& record.id == pool.id
    &&& record.name@ == pool.name@
    &&& record.members@.len() == pool.members@.len()
    &&& forall|i: int|
        0 <= i < record.members@.len() ==> (#[trigger] record.members@[i]) == (AffixPoolMemberRecord {
            affix_id: Some(pool.members@[i].affix_def.id),
            weight: pool.members@[i].weight,
        })
}

/// The record of an item definition, as its data file holds it: pools and fixed affixes by
/// id.
pub open spec fn records_item<'db>(record: ItemDefinitionRecord, item: ItemDefinition<'db>) -> bool {
    &&& record.id == item.id
    &&& record.classification == item.classification
    &&& record.name@ == item.name@
    &&& record.affix_pool_ids@ == item.affix_pools@.map_values(|pool: &AffixPoolDefinition<'db>| pool.id)
    &&& record.fixed_affix_ids@ == item.fixed_affixes@.map_values(|affix: &AffixDefinition| affix.id)
}

/// The record of a loot pool, as its data file holds it: its members name their items by id.
pub open spec fn records_loot_pool<'db>(record: LootPoolDefinitionRecord, pool: LootPoolDefinition<'db>) -> bool {
    &&& record.id == pool.id
    &&& record.name@ == pool.name@
    &&& record.members@.len() == pool.members@.len()
    &&& forall|i: int|
        0 <= i < record.members@.len() ==> (#[trigger] record.members@[i]) == (LootPoolMemberRecord {
            item_id: Some(pool.members@[i].item_def.id),
            weight: pool.members@[i].weight,
        })
}

impl<'db> AffixPoolDefinition<'db> {
    /// The record that the data file holds for this pool.
    pub fn to_record(&self) -> (record: AffixPoolDefinitionRecord)
        ensures
            records_pool(record, *self),
    {
        let mut members: Vec<AffixPoolMemberRecord> = Vec::new();
        let mut i: usize = 0;
        while i < self.members.len()
            invariant
                0 <= i <= self.members@.len(),
                members@.len() == i,
                forall|k: int|
                    0 <= k < i ==> (#[trigger] members@[k]) == (AffixPoolMemberRecord {
                        affix_id: Some(self.members@[k].affix_def.id),
                        weight: self.members@[k].weight,
                    }),
            decreases self.members@.len() - i,
        {
            let member = self.members[i];
            members.push(AffixPoolMemberRecord { affix_id: Some(member.affix_def.id), weight: member.weight });
            i = i + 1;
        }
        AffixPoolDefinitionRecord { id: self.id, members, name: self.name.clone() }
    }
}

impl<'db> ItemDefinition<'db> {
    /// The record that the data file holds for this item definition.
    pub fn to_record(&self) -> (record: ItemDefinitionRecord)
        ensures
            records_item(record, *self),
    {
        let mut affix_pool_ids: Vec<AffixPoolDefinitionId> = Vec::new();
        let mut i: usize = 0;
        while i < self.affix_pools.len()
            invariant
                0 <= i <= self.affix_pools@.len(),
                affix_pool_ids@ == self.affix_pools@.take(i as int).map_values(|pool: &AffixPoolDefinition<'db>| pool.id),
            decreases self.affix_pools@.len() - i,
        {
            assert(self.affix_pools@.take(i + 1) == self.affix_pools@.take(i as int).push(self.affix_pools@[i as int]));
            affix_pool_ids.push(self.affix_pools[i].id);
            i = i + 1;
        }
        let mut fixed_affix_ids: Vec<AffixDefinitionId> = Vec::new();
        let mut j: usize = 0;
        while j < self.fixed_affixes.len()
            invariant
                0 <= j <= self.fixed_affixes@.len(),
                fixed_affix_ids@ == self.fixed_affixes@.take(j as int).map_values(|affix: &AffixDefinition| affix.id),
            decreases self.fixed_affixes@.len() - j,
        {
            assert(self.fixed_affixes@.take(j + 1) == self.fixed_affixes@.take(j as int).push(self.fixed_affixes@[j as int]));
            fixed_affix_ids.push(self.fixed_affixes[j].id);
            j = j + 1;
        }
        assert(self.affix_pools@.take(self.affix_pools@.len() as int) == self.affix_pools@);
        assert(self.fixed_affixes@.take(self.fixed_affixes@.len() as int) == self.fixed_affixes@);
        ItemDefinitionRecord {
            id: self.id,
            classification: self.classification,
            affix_pool_ids,
            fixed_affix_ids,
            name: self.name.clone(),
        }
    }
}

impl<'db> LootPoolDefinition<'db> {
    /// The record that the data file holds for this loot pool.
    pub fn to_record(&self) -> (record: LootPoolDefinitionRecord)
        ensures
            records_loot_pool(record, *self),
    {
        let mut members: Vec<LootPoolMemberRecord> = Vec::new();
        let mut i: usize = 0;
        while i < self.members.len()
            invariant
                0 <= i <= self.members@.len(),
                members@.len() == i,
                forall|k: int|
                    0 <= k < i ==> (#[trigger] members@[k]) == (LootPoolMemberRecord {
                        item_id: Some(self.members@[k].item_def.id),
                        weight: self.members@[k].weight,
                    }),
            decreases self.members@.len() - i,
        {
            let member = self.members[i];
            members.push(LootPoolMemberRecord { item_id: Some(member.item_def.id), weight: member.weight });
            i = i + 1;
        }
        LootPoolDefinitionRecord { id: self.id, name: self.name.clone(), members }
    }
}

/// Writing back an affix pool that was loaded gives the record it was loaded from.
pub proof fn lemma_pool_record_round_trip<'db>(
    record: AffixPoolDefinitionRecord,
    pool: AffixPoolDefinition<'db>,
    written: AffixPoolDefinitionRecord,
    affix_db: AffixDefinitionDatabase,
)
    requires
        pool_record_resolvable(record, affix_db),
        resolves_pool(pool, record, affix_db),
        records_pool(written, pool),
    ensures
        written.id == record.id,
        written.name@ == record.name@,
        written.members@ == record.members@,
{
    assert forall|i: int| 0 <= i < written.members@.len() implies written.members@[i] == record.members@[i] by {
        assert(resolves_member(pool.members@[i], record.members@[i], affix_db));
        assert(names_definition(record.members@[i].affix_id, affix_db.contents()));
    }
    assert(written.members@ =~= record.members@);
}

/// Writing back an item definition that was loaded gives the record it was loaded from.
pub proof fn lemma_item_record_round_trip<'db>(
    record: ItemDefinitionRecord,
    item: ItemDefinition<'db>,
    written: ItemDefinitionRecord,
    affix_db: AffixDefinitionDatabase,
    pool_db: AffixPoolDefinitionDatabase<'db>,
)
    requires
        resolves_item(item, record, affix_db, pool_db),
        records_item(written, item),
    ensures
        written.id == record.id,
        written.classification == record.classification,
        written.name@ == record.name@,
        written.affix_pool_ids@ == record.affix_pool_ids@,
        written.fixed_affix_ids@ == record.fixed_affix_ids@,
{
    assert(written.affix_pool_ids@ =~= record.affix_pool_ids@);
    assert(written.fixed_affix_ids@ =~= record.fixed_affix_ids@);
}

/// Writing back a loot pool that was loaded gives the record it was loaded from.
pub proof fn lemma_loot_record_round_trip<'db>(
    record: LootPoolDefinitionRecord,
    pool: LootPoolDefinition<'db>,
    written: LootPoolDefinitionRecord,
    item_db: ItemDefinitionDatabase<'db>,
)
    requires
        loot_record_resolvable(record, item_db),
        resolves_loot_pool(pool, record, item_db),
        records_loot_pool(written, pool),
    ensures
        written.id == record.id,
        written.name@ == record.name@,
        written.members@ == record.members@,
{
    assert forall|i: int| 0 <= i < written.members@.len() implies written.members@[i] == record.members@[i] by {
        assert(names_definition(record.members@[i].item_id, item_db.contents()));
    }
    assert(written.members@ =~= record.members@);
}

/// The record of a saved affix: the id of its definition, its tier, and a clone of its stats.
pub open spec fn records_affix<'db, S: Clone>(record: AffixInstanceRecord<S>, affix: AffixInstance<'db, S>) -> bool {
    &&& record.affix_def_id == Some(affix.definition.id)
    &&& record.tier == Some(affix.tier)
    &&& record.stats matches Some(stats) && cloned(affix.stats, stats)
}

/// The record of a saved item, as a save file holds it.
pub open spec fn records_instance<'db, S: Clone>(record: ItemInstanceRecord<S>, item: ItemInstance<'db, S>) -> bool {
    &&& record.guid@ == item.guid@
    &&& record.item_def_id == Some(item.definition.id)
    &&& record.affixes@.len() == item.affixes@.len()
    &&& forall|i: int| 0 <= i < record.affixes@.len() ==> records_affix(#[trigger] record.affixes@[i], item.affixes@[i])
}

impl<'db, S: Clone> ItemInstance<'db, S> {
    /// The record that a save file holds for this item.
    pub fn to_record(&self) -> (record: ItemInstanceRecord<S>)
        ensures
            records_instance(record, *self),
    {
        let mut affixes: Vec<AffixInstanceRecord<S>> = Vec::new();
        let mut i: usize = 0;
        while i < self.affixes.len()
            invariant
                0 <= i <= self.affixes@.len(),
                affixes@.len() == i,
                forall|k: int| 0 <= k < i ==> records_affix(#[trigger] affixes@[k], self.affixes@[k]),
            decreases self.affixes@.len() - i,
        {
            let affix = &self.affixes[i];
            let stats = affix.stats.clone();
            affixes.push(AffixInstanceRecord { affix_def_id: Some(affix.definition.id), tier: Some(affix.tier), stats: Some(stats) });
            i = i + 1;
        }
        ItemInstanceRecord { guid: self.guid.clone(), item_def_id: Some(self.definition.id), affixes }
    }
}

/// Saving an item that was loaded from a save gives the record it was loaded from, up to
/// clones of the stats.
pub proof fn lemma_instance_record_round_trip<'db, S: Clone>(
    record: ItemInstanceRecord<S>,
    item: ItemInstance<'db, S>,
    written: ItemInstanceRecord<S>,
    affix_db: AffixDefinitionDatabase,
    item_db: ItemDefinitionDatabase<'db>,
)
    requires
        instance_record_resolvable(record, affix_db, item_db),
        resolves_instance(item, record, affix_db, item_db),
        records_instance(written, item),
    ensures
        written.guid@ == record.guid@,
        written.item_def_id == record.item_def_id,
        written.affixes@.len() == record.affixes@.len(),
        forall|i: int|
            0 <= i < written.affixes@.len() ==> {
                &&& (#[trigger] written.affixes@[i]).affix_def_id == record.affixes@[i].affix_def_id
                &&& written.affixes@[i].tier == record.affixes@[i].tier
                &&& cloned(record.affixes@[i].stats->0, written.affixes@[i].stats->0)
            },
{
    assert forall|i: int| 0 <= i < written.affixes@.len() implies {
        &&& (#[trigger] written.affixes@[i]).affix_def_id == record.affixes@[i].affix_def_id
        &&& written.affixes@[i].tier == record.affixes@[i].tier
        &&& cloned(record.affixes@[i].stats->0, written.affixes@[i].stats->0)
    } by {
        assert(records_affix(written.affixes@[i], item.affixes@[i]));
        assert(resolves_affix(item.affixes@[i], record.affixes@[i], affix_db));
        assert(affix_record_resolvable(record.affixes@[i], affix_db));
    }
}

} // verus!
