//! The shape every kind of game data shares: definitions, databases of definitions, and
//! generators that make instances of a definition.

use std::collections::HashMap;
use std::hash::Hash;
use vstd::prelude::*;
use vstd::std_specs::hash::{builds_valid_hashers, obeys_key_model};
use vstd::std_specs::iter::IteratorSpec;

verus! {

/// A kind of game data, loaded from the data files: an affix, a pool, an item, a loot pool.
pub trait DataDefinition {
    type DefinitionTypeId;

    /// The id under which the definition is kept in its database.
    spec fn definition_id(&self) -> Self::DefinitionTypeId;

    /// The id as a `u64`, the form in which tools show it.
    spec fn numeric_id(&self) -> u64;

    /// Whether the definition meets the criteria of its data type.
    spec fn is_valid(&self) -> bool;

    fn id(&self) -> (id: u64)
        ensures
            id == self.numeric_id(),
    ;

    /// Validates that this definition is valid, for whatever criteria is defined by the data type.
    /// For example, an affix definition may require that it provides at least 1 bonus.
    fn validate(&self) -> (valid: bool)
        ensures
            valid == self.is_valid(),
    ;
}

/// A database has loaded its data when it holds at least one definition and every one of
/// them is valid.
pub open spec fn all_loaded<K, D: DataDefinition>(contents: Map<K, D>) -> bool {
    &&& contents.dom().len() > 0
    &&& forall|id: K| #[trigger] contents.dom().contains(id) ==> contents[id].is_valid()
}

/// `listed` holds the definitions of `contents`, each once: every listed definition is held
/// under its id, no id is listed twice, and every held id is listed.
pub open spec fn lists_each_definition<D: DataDefinition>(
    contents: Map<D::DefinitionTypeId, D>,
    listed: Seq<D>,
) -> bool {
    &&& listed.len() == contents.dom().len()
    &&& forall|i: int|
        #![trigger listed[i]]
        0 <= i < listed.len() ==> contents.contains_key(listed[i].definition_id())
            && contents[listed[i].definition_id()] == listed[i]
    &&& forall|i: int, j: int|
        0 <= i < j < listed.len() ==> (#[trigger] listed[i]).definition_id() != (
        #[trigger] listed[j]).definition_id()
    &&& forall|id: D::DefinitionTypeId|
        #[trigger] contents.contains_key(id) ==> exists|i: int|
            0 <= i < listed.len() && (#[trigger] listed[i]).definition_id() == id
}

pub trait DataDefinitionDatabase<DataDefinitionType: DataDefinition> {
    /// The definitions held, by id.
    spec fn contents(&self) -> Map<DataDefinitionType::DefinitionTypeId, DataDefinitionType>;

    /// Returns whether a database has successfully loaded all data.
    fn validate(&self) -> (loaded: bool)
        ensures
            loaded == all_loaded(self.contents()),
    ;

    /// Returns a data definition given it's ID.
    fn definition(&self, id: DataDefinitionType::DefinitionTypeId) -> (found: Option<
        &DataDefinitionType,
    >)
        ensures
            found is Some <==> self.contents().contains_key(id),
            found matches Some(d) ==> *d == self.contents()[id] && d.definition_id() == id,
    ;

    /// All definitions, each once, in no particular order.
    fn definitions(&self) -> (all: Vec<&DataDefinitionType>)
        ensures
            lists_each_definition(self.contents(), all@.map_values(|d: &DataDefinitionType| *d)),
    ;

    /// Adds a definition under its id, in place of any definition with the same id.
    fn add_definition(&mut self, definition: DataDefinitionType)
        ensures
            final(self).contents() == old(self).contents().insert(
                definition.definition_id(),
                definition,
            ),
    ;
}


/// Makes instances of a kind of definition: an affix of an affix definition, an affix
/// definition out of a pool, an item of an item definition or of a loot pool.
pub trait DataInstanceGenerator<'d, DataDefinitionType: DataDefinition, DataInstanceType, GeneratorCriteriaType> {
    /// The databases that generating reads.
    type DataDependencies;

    /// Whether the definition, the criteria and the databases are ones that generating can
    /// work with.
    spec fn can_generate(
        &self,
        definition: DataDefinitionType,
        criteria: GeneratorCriteriaType,
        databases: Self::DataDependencies,
    ) -> bool;

    /// Whether `instance` is one that generating may give for the definition, the criteria and
    /// the databases.
    spec fn may_generate(
        &self,
        definition: DataDefinitionType,
        criteria: GeneratorCriteriaType,
        databases: Self::DataDependencies,
        instance: DataInstanceType,
    ) -> bool;

    /// Generates an instance of `definition` that meets `criteria`.
    fn generate(
        &self,
        definition: &'d DataDefinitionType,
        criteria: &GeneratorCriteriaType,
        databases: &Self::DataDependencies,
    ) -> (instance: DataInstanceType)
        requires
            self.can_generate(*definition, *criteria, *databases),
        ensures
            self.may_generate(*definition, *criteria, *databases, instance),
    ;
}

/// Every definition in `contents` is kept under its own id.
pub open spec fn keyed_by_id<D: DataDefinition>(contents: Map<D::DefinitionTypeId, D>) -> bool {
    forall|id: D::DefinitionTypeId|
        #[trigger] contents.contains_key(id) ==> contents[id].definition_id() == id
}

/// The definitions by id after loading `definitions` in order: a later definition replaces
/// an earlier one with the same id.
pub open spec fn definitions_by_id<D: DataDefinition>(definitions: Seq<D>) -> Map<
    D::DefinitionTypeId,
    D,
>
    decreases definitions.len(),
{
    if definitions.len() == 0 {
        Map::empty()
    } else {
        definitions_by_id(definitions.drop_last()).insert(
            definitions.last().definition_id(),
            definitions.last(),
        )
    }
}

pub proof fn lemma_definitions_by_id_keyed<D: DataDefinition>(definitions: Seq<D>)
    ensures
        keyed_by_id(definitions_by_id(definitions)),
    decreases definitions.len(),
{
    if definitions.len() > 0 {
        lemma_definitions_by_id_keyed(definitions.drop_last());
    }
}

/// Whether the database behind `definitions` has loaded its data, as
/// [`DataDefinitionDatabase::validate`] states.
pub fn all_definitions_valid<K: Hash + Eq, D: DataDefinition<DefinitionTypeId = K>>(
    definitions: &HashMap<K, D>,
) -> (loaded: bool)
    requires
        obeys_key_model::<K>(),
        builds_valid_hashers::<std::collections::hash_map::RandomState>(),
    ensures
        loaded == all_loaded(definitions@),
{
    broadcast use vstd::std_specs::hash::group_hash_axioms;

    if definitions.is_empty() {
        return false;
    }
    let mut all_valid = true;
    let ghost entries = definitions.iter().remaining();
    for (id, definition) in it: definitions.iter()
        invariant
            it.seq() == entries,
            entries == definitions.iter().remaining(),
            all_valid == forall|i: int|
                0 <= i < it.index() ==> (#[trigger] entries[i]).1.is_valid(),
    {
        if !definition.validate() {
            all_valid = false;
        }
    }
    proof {
        assert(entries.len() == definitions@.dom().len());
        if all_valid {
            assert forall|id: K| #[trigger]
                definitions@.contains_key(id) implies definitions@[id].is_valid() by {
                assert(entries.contains((&id, &definitions@[id])));
                let i = choose|i: int|
                    0 <= i < entries.len() && entries[i] == (&id, &definitions@[id]);
                assert(entries[i].1.is_valid());
            }
        } else {
            let i = choose|i: int|
                0 <= i < entries.len() && !(#[trigger] entries[i]).1.is_valid();
            assert(definitions@.contains_key(*entries[i].0));
        }
    }
    all_valid
}

/// All definitions behind `definitions`, each once, as
/// [`DataDefinitionDatabase::definitions`] states.
pub fn list_definitions<K: Hash + Eq, D: DataDefinition<DefinitionTypeId = K>>(
    definitions: &HashMap<K, D>,
) -> (all: Vec<&D>)
    requires
        obeys_key_model::<K>(),
        builds_valid_hashers::<std::collections::hash_map::RandomState>(),
        keyed_by_id(definitions@),
    ensures
        lists_each_definition(definitions@, all@.map_values(|d: &D| *d)),
{
    broadcast use vstd::std_specs::hash::group_hash_axioms;

    let mut all: Vec<&D> = Vec::new();
    let ghost entries = definitions.iter().remaining();
    for (id, definition) in it: definitions.iter()
        invariant
            it.seq() == entries,
            entries == definitions.iter().remaining(),
            entries.no_duplicates(),
            all@.len() == it.index(),
            forall|i: int| 0 <= i < it.index() ==> #[trigger] all@[i] == entries[i].1,
    {
        all.push(definition);
    }
    proof {
        let listed = all@.map_values(|d: &D| *d);
        let contents = definitions@;
        assert(entries.len() == contents.dom().len());
        assert forall|i: int| 0 <= i < listed.len() implies contents.contains_key(
            listed[i].definition_id(),
        ) && contents[listed[i].definition_id()] == listed[i] by {
            assert(contents.contains_key(*entries[i].0));
        }
        assert forall|i: int, j: int|
            0 <= i < j < listed.len() implies (#[trigger] listed[i]).definition_id() != (
            #[trigger] listed[j]).definition_id() by {
            assert(contents.contains_key(*entries[i].0));
            assert(contents.contains_key(*entries[j].0));
        }
        assert forall|id: K| #[trigger] contents.contains_key(id) implies exists|i: int|
            0 <= i < listed.len() && (#[trigger] listed[i]).definition_id() == id by {
            assert(entries.contains((&id, &contents[id])));
            let i = choose|i: int| 0 <= i < entries.len() && entries[i] == (&id, &contents[id]);
            assert(listed[i].definition_id() == id);
        }
    }
    all
}

/// After a definition is added, its id finds it, and every other id finds what it found
/// before.
pub proof fn lemma_added_definition_is_found<K, D: DataDefinition<DefinitionTypeId = K>>(
    before: Map<K, D>,
    after: Map<K, D>,
    definition: D,
)
    requires
        after == before.insert(definition.definition_id(), definition),
    ensures
        after.contains_key(definition.definition_id()),
        after[definition.definition_id()] == definition,
        forall|id: K|
            id != definition.definition_id() ==> (#[trigger] after.contains_key(id) <==> before.contains_key(id)),
        forall|id: K|
            id != definition.definition_id() && #[trigger] before.contains_key(id) ==> after[id] == before[id],
{
}

/// A database loaded from a list holds, under each id, the last definition of the list with
/// that id, and holds no other id.
pub proof fn lemma_last_definition_wins<D: DataDefinition>(definitions: Seq<D>, id: D::DefinitionTypeId)
    ensures
        definitions_by_id(definitions).contains_key(id) <==> exists|i: int|
            0 <= i < definitions.len() && (#[trigger] definitions[i]).definition_id() == id,
        definitions_by_id(definitions).contains_key(id) ==> exists|i: int|
            0 <= i < definitions.len() && (#[trigger] definitions[i]).definition_id() == id
                && definitions_by_id(definitions)[id] == definitions[i]
                && forall|j: int| i < j < definitions.len() ==> (#[trigger] definitions[j]).definition_id() != id,
    decreases definitions.len(),
{
    if definitions.len() > 0 {
        let rest = definitions.drop_last();
        lemma_last_definition_wins(rest, id);
        let last = definitions.last();
        let n = definitions.len() - 1;
        assert(definitions[n] == last);
        if last.definition_id() == id {
            assert(definitions_by_id(definitions)[id] == definitions[n]);
        } else {
            if definitions_by_id(definitions).contains_key(id) {
                let i = choose|i: int|
                    0 <= i < rest.len() && (#[trigger] rest[i]).definition_id() == id
                        && definitions_by_id(rest)[id] == rest[i]
                        && forall|j: int| i < j < rest.len() ==> (#[trigger] rest[j]).definition_id() != id;
                assert(definitions[i] == rest[i]);
                assert forall|j: int| i < j < definitions.len() implies (#[trigger] definitions[j]).definition_id() != id by {
                    if j < n {
                        assert(definitions[j] == rest[j]);
                    }
                }
            }
            if exists|i: int| 0 <= i < definitions.len() && (#[trigger] definitions[i]).definition_id() == id {
                let i = choose|i: int| 0 <= i < definitions.len() && (#[trigger] definitions[i]).definition_id() == id;
                assert(i < n);
                assert(rest[i] == definitions[i]);
            }
        }
    }
}

} // verus!
