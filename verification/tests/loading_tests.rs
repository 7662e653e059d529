use cypher::affix::{AffixDefinition, AffixDefinitionDatabase, AffixPlacement};
use cypher::affix_pool::AffixPoolDefinitionDatabase;
use cypher::item::{ItemClassification, ItemDefinitionDatabase, ItemEquipSlot};
use cypher::loading::{
    resolve_affix_pool, resolve_affix_pool_member, resolve_item_definition, resolve_item_instance,
    resolve_loot_pool, AffixInstanceRecord, AffixPoolDefinitionRecord, AffixPoolMemberRecord,
    ItemDefinitionRecord, ItemInstanceRecord, LootPoolDefinitionRecord, LootPoolMemberRecord,
};
use std::collections::BTreeMap;

fn affix(id: u32) -> AffixDefinition {
    AffixDefinition { id, placement: AffixPlacement::Prefix, tiers: BTreeMap::new(), name: format!("a{}", id) }
}

#[test]
fn pool_records_resolve_their_affixes() {
    let affix_db = AffixDefinitionDatabase::from_definitions(vec![affix(1), affix(2)]);
    let member = resolve_affix_pool_member(AffixPoolMemberRecord { affix_id: Some(2), weight: 40 }, &affix_db);
    assert_eq!(member.affix_def.id, 2);
    assert_eq!(member.weight, 40);
    let record = AffixPoolDefinitionRecord {
        id: 3,
        members: vec![
            AffixPoolMemberRecord { affix_id: Some(1), weight: 5 },
            AffixPoolMemberRecord { affix_id: Some(2), weight: 6 },
        ],
        name: "pool".to_string(),
    };
    assert!(record.can_resolve(&affix_db));
    let pool = resolve_affix_pool(record, &affix_db);
    assert_eq!(pool.id, 3);
    assert_eq!(pool.name, "pool");
    let members: Vec<(u32, u64)> = pool.members.iter().map(|m| (m.affix_def.id, m.weight)).collect();
    assert_eq!(members, vec![(1, 5), (2, 6)]);

    let unknown = AffixPoolDefinitionRecord {
        id: 4,
        members: vec![AffixPoolMemberRecord { affix_id: Some(9), weight: 1 }],
        name: String::new(),
    };
    assert!(!unknown.can_resolve(&affix_db));
    let missing = AffixPoolDefinitionRecord {
        id: 5,
        members: vec![AffixPoolMemberRecord { affix_id: None, weight: 1 }],
        name: String::new(),
    };
    assert!(!missing.can_resolve(&affix_db));
}

#[test]
fn item_and_loot_records_resolve_their_references() {
    let affix_db = AffixDefinitionDatabase::from_definitions(vec![affix(1), affix(2)]);
    let pool = resolve_affix_pool(
        AffixPoolDefinitionRecord {
            id: 7,
            members: vec![AffixPoolMemberRecord { affix_id: Some(1), weight: 1 }],
            name: "p".to_string(),
        },
        &affix_db,
    );
    let pool_db = AffixPoolDefinitionDatabase::from_definitions(vec![pool]);
    let record = ItemDefinitionRecord {
        id: 30,
        classification: ItemClassification::Equippable(ItemEquipSlot::RightArm),
        affix_pool_ids: vec![7, 7],
        fixed_affix_ids: vec![2],
        name: "sword".to_string(),
    };
    assert!(record.can_resolve(&affix_db, &pool_db));
    let bad = ItemDefinitionRecord { affix_pool_ids: vec![8], ..record.clone() };
    assert!(!bad.can_resolve(&affix_db, &pool_db));
    let bad_fixed = ItemDefinitionRecord { fixed_affix_ids: vec![3], ..record.clone() };
    assert!(!bad_fixed.can_resolve(&affix_db, &pool_db));
    let item = resolve_item_definition(record, &affix_db, &pool_db);
    assert_eq!(item.id, 30);
    assert_eq!(item.classification, ItemClassification::Equippable(ItemEquipSlot::RightArm));
    assert_eq!(item.affix_pools.iter().map(|p| p.id).collect::<Vec<u32>>(), vec![7, 7]);
    assert_eq!(item.fixed_affixes.iter().map(|a| a.id).collect::<Vec<u32>>(), vec![2]);
    assert_eq!(item.name, "sword");

    let item_db = ItemDefinitionDatabase::from_definitions(vec![item]);
    let loot_record = LootPoolDefinitionRecord {
        id: 1,
        name: "drops".to_string(),
        members: vec![LootPoolMemberRecord { item_id: Some(30), weight: 12 }],
    };
    assert!(loot_record.can_resolve(&item_db));
    let loot = resolve_loot_pool(loot_record, &item_db);
    assert_eq!(loot.members.len(), 1);
    assert_eq!(loot.members[0].item_def.id, 30);
    assert_eq!(loot.members[0].weight, 12);
    let unknown = LootPoolDefinitionRecord {
        id: 2,
        name: String::new(),
        members: vec![LootPoolMemberRecord { item_id: Some(31), weight: 1 }],
    };
    assert!(!unknown.can_resolve(&item_db));

    let saved = ItemInstanceRecord {
        guid: "saved".to_string(),
        item_def_id: Some(30),
        affixes: vec![AffixInstanceRecord { affix_def_id: Some(1), tier: Some(2), stats: Some(0.5f32) }],
    };
    assert!(saved.can_resolve(&affix_db, &item_db));
    let no_stats = ItemInstanceRecord {
        guid: "x".to_string(),
        item_def_id: Some(30),
        affixes: vec![AffixInstanceRecord::<f32> { affix_def_id: Some(1), tier: Some(2), stats: None }],
    };
    assert!(!no_stats.can_resolve(&affix_db, &item_db));
    let instance = resolve_item_instance(saved, &affix_db, &item_db);
    assert_eq!(instance.guid, "saved");
    assert_eq!(instance.definition.id, 30);
    assert_eq!(instance.affixes[0].definition.id, 1);
    assert_eq!(instance.affixes[0].tier, 2);
    assert_eq!(instance.affixes[0].stats, 0.5);
}

#[test]
fn loaded_definitions_write_back_their_records() {
    let affix_db = AffixDefinitionDatabase::from_definitions(vec![affix(1), affix(2)]);
    let pool_record = AffixPoolDefinitionRecord {
        id: 7,
        members: vec![
            AffixPoolMemberRecord { affix_id: Some(2), weight: 3 },
            AffixPoolMemberRecord { affix_id: Some(1), weight: 0 },
        ],
        name: "p".to_string(),
    };
    let pool = resolve_affix_pool(pool_record.clone(), &affix_db);
    let written = pool.to_record();
    assert_eq!(written.id, pool_record.id);
    assert_eq!(written.name, pool_record.name);
    assert_eq!(
        written.members.iter().map(|m| (m.affix_id, m.weight)).collect::<Vec<(Option<u32>, u64)>>(),
        vec![(Some(2), 3), (Some(1), 0)]
    );
    let pool_db = AffixPoolDefinitionDatabase::from_definitions(vec![pool]);
    let item_record = ItemDefinitionRecord {
        id: 3,
        classification: ItemClassification::Currency,
        affix_pool_ids: vec![7],
        fixed_affix_ids: vec![2, 1],
        name: "i".to_string(),
    };
    let item = resolve_item_definition(item_record.clone(), &affix_db, &pool_db);
    let written = item.to_record();
    assert_eq!(written.affix_pool_ids, vec![7]);
    assert_eq!(written.fixed_affix_ids, vec![2, 1]);
    assert_eq!(written.classification, ItemClassification::Currency);
    let item_db = ItemDefinitionDatabase::from_definitions(vec![item]);
    let loot_record = LootPoolDefinitionRecord {
        id: 9,
        name: "l".to_string(),
        members: vec![LootPoolMemberRecord { item_id: Some(3), weight: 4 }],
    };
    let loot = resolve_loot_pool(loot_record, &item_db);
    let written = loot.to_record();
    assert_eq!(written.members.len(), 1);
    assert_eq!(written.members[0].item_id, Some(3));
    assert_eq!(written.members[0].weight, 4);
}

#[test]
fn saved_items_write_back_their_records() {
    let affix_db = AffixDefinitionDatabase::from_definitions(vec![affix(1)]);
    let item_record = ItemDefinitionRecord {
        id: 30,
        classification: ItemClassification::Currency,
        affix_pool_ids: vec![],
        fixed_affix_ids: vec![],
        name: "coin".to_string(),
    };
    let pool_db = AffixPoolDefinitionDatabase::from_definitions(vec![]);
    let item_db = ItemDefinitionDatabase::from_definitions(vec![resolve_item_definition(item_record, &affix_db, &pool_db)]);
    let saved = ItemInstanceRecord {
        guid: "g".to_string(),
        item_def_id: Some(30),
        affixes: vec![AffixInstanceRecord { affix_def_id: Some(1), tier: Some(3), stats: Some(vec![1u8, 2]) }],
    };
    let item = resolve_item_instance(saved, &affix_db, &item_db);
    let written = item.to_record();
    assert_eq!(written.guid, "g");
    assert_eq!(written.item_def_id, Some(30));
    assert_eq!(written.affixes[0].affix_def_id, Some(1));
    assert_eq!(written.affixes[0].tier, Some(3));
    assert_eq!(written.affixes[0].stats, Some(vec![1u8, 2]));
}
