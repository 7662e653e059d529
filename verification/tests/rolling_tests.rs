use cypher::affix::{
    AffixDefinition, AffixDefinitionDatabase, AffixDefinitionStat, AffixDefinitionTier, AffixPlacement,
};
use cypher::affix_generation::AffixGenerationCriteria;
use cypher::affix_pool::{AffixPoolDefinition, AffixPoolDefinitionDatabase, AffixPoolMember};
use cypher::data::DataDefinitionDatabase;
use cypher::item::{ItemClassification, ItemDefinition, ItemDefinitionDatabase, ItemEquipSlot};
use cypher::item_generation::{check_can_make_item, check_pools_can_be_rolled, total_weight, ItemDefinitionCriteria};
use cypher::item_rolling::{check_can_drop_item, check_can_roll_from};
use cypher::loot_pool::{check_can_drop_from, LootPoolCriteria, LootPoolDefinition, LootPoolMember};
use cypher::stat::Stat;
use std::collections::{BTreeMap, HashSet};

fn affix(id: u32, level: Option<u8>) -> AffixDefinition {
    let mut tiers = BTreeMap::new();
    tiers.insert(
        1,
        AffixDefinitionTier {
            tier: 1,
            stats: vec![AffixDefinitionStat { stat: Stat::Energy, lower_bound_bits: 0, upper_bound_bits: 0 }],
            item_level_req: level,
            precision_places: None,
        },
    );
    AffixDefinition { id, placement: AffixPlacement::Prefix, tiers, name: format!("a{}", id) }
}

#[test]
fn rolled_items_never_repeat_an_affix() {
    let affix_db = AffixDefinitionDatabase::from_definitions((1..=3).map(|id| affix(id, None)).collect());
    let pool = AffixPoolDefinition {
        id: 1,
        members: (1..=3).map(|id| AffixPoolMember { affix_def: affix_db.definition(id).unwrap(), weight: 1 }).collect(),
        name: "p".to_string(),
    };
    let pool_db = AffixPoolDefinitionDatabase::from_definitions(vec![pool]);
    let definition = ItemDefinition {
        id: 1,
        classification: ItemClassification::Equippable(ItemEquipSlot::Head),
        affix_pools: vec![pool_db.definition(1).unwrap()],
        fixed_affixes: vec![],
        name: "helm".to_string(),
    };
    let six = ItemDefinitionCriteria { affix_count_weighting: vec![(6, 1)], affix_generation_criteria: AffixGenerationCriteria::default() };
    for _ in 0..50 {
        let item = definition.generate(&affix_db, &pool_db, &six);
        assert_eq!(item.definition_id, 1);
        assert_eq!(item.classification, ItemClassification::Equippable(ItemEquipSlot::Head));
        // Only three definitions exist, so six draws without repeats give exactly three.
        assert_eq!(item.affixes.len(), 3);
        let ids: HashSet<u32> = item.affixes.iter().map(|a| a.definition.id).collect();
        assert_eq!(ids.len(), 3);
    }
}

#[test]
fn pool_rolls_follow_the_affix_criteria() {
    let affix_db = AffixDefinitionDatabase::from_definitions(vec![affix(1, None), affix(2, Some(30))]);
    let pool = AffixPoolDefinition {
        id: 1,
        members: vec![
            AffixPoolMember { affix_def: affix_db.definition(1).unwrap(), weight: 2 },
            AffixPoolMember { affix_def: affix_db.definition(2).unwrap(), weight: 2 },
        ],
        name: "p".to_string(),
    };
    let mut not_first = HashSet::new();
    not_first.insert(1);
    let criteria = AffixGenerationCriteria { disallowed_ids: Some(not_first), ..Default::default() };
    assert!(check_can_roll_from(&pool.members, &criteria, &affix_db));
    // The only member left needs item level 30.
    for _ in 0..20 {
        assert!(pool.generate(&affix_db, &criteria).is_none());
    }
    let high = AffixGenerationCriteria { item_level: Some(30), ..criteria };
    for _ in 0..20 {
        assert_eq!(pool.generate(&affix_db, &high).unwrap().definition.id, 2);
    }
}

#[test]
fn checks_tell_when_data_can_be_used() {
    assert_eq!(total_weight(&vec![1, 2, 3]), Some(6));
    assert_eq!(total_weight(&vec![]), Some(0));
    assert_eq!(total_weight(&vec![u64::MAX, 1]), None);

    let affix_db = AffixDefinitionDatabase::from_definitions(vec![affix(1, None), affix(2, Some(50))]);
    let pool = AffixPoolDefinition {
        id: 1,
        members: vec![AffixPoolMember { affix_def: affix_db.definition(1).unwrap(), weight: 5 }],
        name: "p".to_string(),
    };
    let pool_db = AffixPoolDefinitionDatabase::from_definitions(vec![pool.clone()]);
    let loaded = ItemDefinition {
        id: 1,
        classification: ItemClassification::Currency,
        affix_pools: vec![pool_db.definition(1).unwrap()],
        fixed_affixes: vec![],
        name: "a".to_string(),
    };
    let missing_pool = AffixPoolDefinition { id: 2, ..pool.clone() };
    let not_loaded = ItemDefinition { id: 2, affix_pools: vec![&missing_pool], ..loaded.clone() };
    let fixed_high = ItemDefinition { id: 3, affix_pools: vec![], fixed_affixes: vec![affix_db.definition(2).unwrap()], ..loaded.clone() };
    let default_weighting = ItemDefinitionCriteria::default().affix_count_weighting;
    assert!(check_pools_can_be_rolled(&loaded, &default_weighting, &affix_db, &pool_db));
    assert!(!check_pools_can_be_rolled(&not_loaded, &default_weighting, &affix_db, &pool_db));
    assert!(!check_pools_can_be_rolled(&loaded, &vec![(1, 0)], &affix_db, &pool_db));
    assert!(!check_pools_can_be_rolled(&loaded, &vec![(1, u64::MAX), (2, 1)], &affix_db, &pool_db));
    assert!(!check_can_make_item(&fixed_high, &default_weighting, None, None, &affix_db, &pool_db));
    assert!(check_can_make_item(&fixed_high, &default_weighting, None, Some(50), &affix_db, &pool_db));

    let item_db = ItemDefinitionDatabase::from_definitions(vec![loaded, fixed_high]);
    let good = vec![LootPoolMember { item_def: item_db.definition(1).unwrap(), weight: 3 }];
    assert!(check_can_drop_from(&good, &affix_db, &pool_db, &item_db));
    assert!(check_can_drop_item(&good, &affix_db, &pool_db, &item_db));
    let needs_level = vec![LootPoolMember { item_def: item_db.definition(3).unwrap(), weight: 3 }];
    assert!(!check_can_drop_from(&needs_level, &affix_db, &pool_db, &item_db));
    let weightless = vec![LootPoolMember { item_def: item_db.definition(1).unwrap(), weight: 0 }];
    assert!(!check_can_drop_from(&weightless, &affix_db, &pool_db, &item_db));

    let loot = LootPoolDefinition { id: 1, name: "l".to_string(), members: good };
    for _ in 0..20 {
        let item = loot.generate(&item_db, &affix_db, &pool_db, &LootPoolCriteria::default());
        assert_eq!(item.definition_id, 1);
        assert_eq!(item.classification, ItemClassification::Currency);
        assert!(item.affixes.len() <= 1);
    }
}
