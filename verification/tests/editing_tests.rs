use cypher::affix::{AffixDefinition, AffixDefinitionDatabase, AffixDefinitionTier, AffixPlacement};
use cypher::affix_pool::{AffixPoolDefinition, AffixPoolDefinitionDatabase};
use cypher::data::DataDefinitionDatabase;
use cypher::editing::{sorted_by_id, EditorSelection, SelectedEditor};
use cypher::item::{ItemClassification, ItemDefinitionDatabase};
use cypher::loading::{
    AffixPoolDefinitionRecord, ItemDefinitionRecord, LootPoolDefinitionRecord, LootPoolMemberRecord,
};
use cypher::loot_pool::LootPoolDefinitionDatabase;
use cypher::stat::Stat;
use std::collections::BTreeMap;

fn affix(id: u32) -> AffixDefinition {
    AffixDefinition { id, placement: AffixPlacement::Prefix, tiers: BTreeMap::new(), name: format!("a{}", id) }
}

#[test]
fn selection_follows_the_editor() {
    let mut selection = EditorSelection::new();
    assert_eq!(selection.selected_editor, SelectedEditor::NoEditor);
    assert_eq!(SelectedEditor::default(), SelectedEditor::NoEditor);
    selection.select(4);
    assert!(selection.is_selected(4));
    assert!(!selection.is_selected(5));
    selection.open_editor(SelectedEditor::Item);
    assert_eq!(selection.selected_editor, SelectedEditor::Item);
    assert!(selection.selected_definition_id.is_none());
    selection.select(2);
    selection.invalidate_selections();
    assert_eq!(selection.selected_editor, SelectedEditor::Item);
    assert!(!selection.is_selected(2));
}

#[test]
fn tables_list_definitions_by_id() {
    let database = AffixDefinitionDatabase::from_definitions(vec![affix(9), affix(2), affix(5), affix(1)]);
    let sorted = sorted_by_id(database.definitions());
    assert_eq!(sorted.iter().map(|d| d.id).collect::<Vec<u32>>(), vec![1, 2, 5, 9]);
    let a = affix(3);
    let b = AffixDefinition { name: "other".to_string(), ..affix(3) };
    let c = affix(1);
    let stable = sorted_by_id(vec![&a, &c, &b]);
    assert_eq!(stable.iter().map(|d| d.name.as_str()).collect::<Vec<&str>>(), vec!["a1", "a3", "other"]);
}

#[test]
fn blank_definitions_take_the_next_id() {
    let mut affixes = AffixDefinitionDatabase::from_definitions(vec![affix(3), affix(7)]);
    assert_eq!(affixes.add_blank_definition(), Some(8));
    let blank = affixes.definition(8).unwrap();
    assert_eq!(blank.placement, AffixPlacement::Invalid);
    assert!(blank.tiers.is_empty() && blank.name.is_empty());
    let mut empty = AffixDefinitionDatabase::from_definitions(vec![]);
    assert_eq!(empty.add_blank_definition(), Some(1));
    let mut full = AffixDefinitionDatabase::from_definitions(vec![affix(u32::MAX)]);
    assert_eq!(full.add_blank_definition(), None);
    assert_eq!(full.definitions().len(), 1);

    let mut items = ItemDefinitionDatabase::from_definitions(vec![]);
    assert_eq!(items.add_blank_definition(), Some(1));
    assert_eq!(items.add_blank_definition(), Some(2));
    assert_eq!(items.definition(2).unwrap().classification, ItemClassification::Invalid);

    let mut loot = LootPoolDefinitionDatabase::from_definitions(vec![]);
    assert_eq!(loot.add_blank_definition(), Some(1));

    let mut pools = AffixPoolDefinitionDatabase::from_definitions(vec![]);
    assert_eq!(pools.add_blank_definition(), None);
    let mut pools = AffixPoolDefinitionDatabase::from_definitions(vec![AffixPoolDefinition {
        id: 4,
        members: vec![],
        name: "p".to_string(),
    }]);
    assert_eq!(pools.add_blank_definition(), Some(5));
    assert!(pools.definition(5).unwrap().members.is_empty());
}

#[test]
fn affix_tiers_and_stats_are_edited_in_place() {
    let mut database = AffixDefinitionDatabase::from_definitions(vec![affix(1)]);
    let mut definition = database.take_definition(1).unwrap();
    assert!(database.definition(1).is_none());
    assert!(database.take_definition(1).is_none());
    definition.add_tier();
    definition.add_tier();
    assert_eq!(definition.tiers.keys().copied().collect::<Vec<u16>>(), vec![1, 2]);
    let tier: &mut AffixDefinitionTier = definition.tiers.get_mut(&2).unwrap();
    tier.add_stat();
    tier.add_stat();
    assert_eq!(tier.stats.len(), 2);
    assert_eq!(tier.stats[0].stat, Stat::Resolve);
    assert_eq!(f32::from_bits(tier.stats[0].upper_bound_bits), 0.0);
    tier.remove_last_stat();
    assert_eq!(tier.stats.len(), 1);
    definition.remove_last_tier();
    assert_eq!(definition.tiers.keys().copied().collect::<Vec<u16>>(), vec![1]);
    database.add_definition(definition);
    assert_eq!(database.definition(1).unwrap().tiers.len(), 1);
}

#[test]
fn list_edits_follow_the_editor_buttons() {
    let affixes = AffixDefinitionDatabase::from_definitions(vec![affix(4)]);
    let mut pool = AffixPoolDefinitionRecord { id: 1, members: vec![], name: "p".to_string() };
    pool.add_member(&affixes);
    assert_eq!(pool.members.len(), 1);
    assert_eq!(pool.members[0].affix_id, Some(4));
    assert_eq!(pool.members[0].weight, 0);

    let mut item = ItemDefinitionRecord {
        id: 1,
        classification: ItemClassification::Currency,
        affix_pool_ids: vec![],
        fixed_affix_ids: vec![0],
        name: "i".to_string(),
    };
    item.add_fixed_affix();
    assert_eq!(item.fixed_affix_ids, vec![0, 1]);
    item.replace_fixed_affix(0, 4, &affixes);
    assert_eq!(item.fixed_affix_ids, vec![1, 4]);
    item.remove_fixed_affix();
    assert_eq!(item.fixed_affix_ids, vec![4]);
    item.add_affix_pool();
    item.add_affix_pool();
    assert_eq!(item.affix_pool_ids, vec![0, 1]);
    item.remove_affix_pool();
    assert_eq!(item.affix_pool_ids, vec![0]);
    let pools = AffixPoolDefinitionDatabase::from_definitions(vec![AffixPoolDefinition {
        id: 3,
        members: vec![],
        name: "q".to_string(),
    }]);
    item.replace_affix_pool(0, 3, &pools);
    assert_eq!(item.affix_pool_ids, vec![3]);

    let items = ItemDefinitionDatabase::from_definitions(vec![]);
    let mut loot = LootPoolDefinitionRecord { id: 1, name: "l".to_string(), members: vec![] };
    loot.add_member();
    loot.add_member();
    assert_eq!(loot.members.len(), 2);
    assert_eq!(loot.members[0].item_id, Some(0));
    loot.remove_member();
    // Only members naming item 1 go; both name item 0.
    assert_eq!(loot.members.len(), 2);
    let mut items = items;
    assert_eq!(items.add_blank_definition(), Some(1));
    loot.replace_member(0, 1, &items);
    assert_eq!(
        loot.members.iter().map(|m| (m.item_id, m.weight)).collect::<Vec<(Option<u64>, u64)>>(),
        vec![(Some(0), 0), (Some(1), 1)]
    );
    let _ = LootPoolMemberRecord { item_id: None, weight: 0 };
}

#[test]
fn replacing_goes_where_the_search_lands() {
    let affixes = AffixDefinitionDatabase::from_definitions(vec![affix(4)]);
    let mut item = ItemDefinitionRecord {
        id: 1,
        classification: ItemClassification::Currency,
        affix_pool_ids: vec![2, 5, 9],
        fixed_affix_ids: vec![1, 3, 6, 8],
        name: "i".to_string(),
    };
    assert!(item.try_replace_fixed_affix(6, 4, &affixes));
    assert_eq!(item.fixed_affix_ids, vec![1, 3, 8, 4]);
    // 2 is not among the ids: nothing changes.
    assert!(!item.try_replace_fixed_affix(2, 4, &affixes));
    assert_eq!(item.fixed_affix_ids, vec![1, 3, 8, 4]);
    // Out of order, the search for 7 misses the 7 that stands first.
    item.fixed_affix_ids = vec![7, 1];
    assert!(!item.try_replace_fixed_affix(7, 4, &affixes));
    assert_eq!(item.fixed_affix_ids, vec![7, 1]);

    let pools = AffixPoolDefinitionDatabase::from_definitions(vec![AffixPoolDefinition {
        id: 3,
        members: vec![],
        name: "q".to_string(),
    }]);
    assert!(item.try_replace_affix_pool(9, 3, &pools));
    assert_eq!(item.affix_pool_ids, vec![2, 5, 3]);
    assert!(!item.try_replace_affix_pool(4, 3, &pools));
    assert_eq!(item.affix_pool_ids, vec![2, 5, 3]);

    let mut items = ItemDefinitionDatabase::from_definitions(vec![]);
    assert_eq!(items.add_blank_definition(), Some(1));
    let mut loot = LootPoolDefinitionRecord {
        id: 1,
        name: "l".to_string(),
        members: vec![
            LootPoolMemberRecord { item_id: None, weight: 2 },
            LootPoolMemberRecord { item_id: Some(0), weight: 3 },
            LootPoolMemberRecord { item_id: Some(5), weight: 4 },
        ],
    };
    assert!(loot.try_replace_member(5, 1, &items));
    assert_eq!(
        loot.members.iter().map(|m| (m.item_id, m.weight)).collect::<Vec<(Option<u64>, u64)>>(),
        vec![(None, 2), (Some(0), 3), (Some(1), 1)]
    );
    assert!(!loot.try_replace_member(7, 1, &items));
    assert_eq!(loot.members.len(), 3);
}
