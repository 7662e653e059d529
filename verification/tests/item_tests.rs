use cypher::affix::{
    AffixDefinition, AffixDefinitionDatabase, AffixDefinitionStat, AffixDefinitionTier, AffixPlacement,
};
use cypher::affix_generation::{AffixGenerationCriteria, AffixInstance};
use cypher::affix_pool::{AffixPoolDefinition, AffixPoolDefinitionDatabase, AffixPoolMember};
use cypher::data::{DataDefinition, DataDefinitionDatabase, DataInstanceGenerator};
use cypher::item::{
    ItemClassification, ItemDefinition, ItemDefinitionDatabase, ItemEquipSlot, ItemInstance,
    ItemInstanceRarityTier,
};
use cypher::item_generation::{ItemDefinitionCriteria, ItemGenerator};
use cypher::loot_pool::{
    LootPoolCriteria, LootPoolDefinition, LootPoolDefinitionDatabase, LootPoolItemGenerator, LootPoolMember,
};
use cypher::stat::Stat;
use std::collections::BTreeMap;

fn tier(tier: u16) -> AffixDefinitionTier {
    AffixDefinitionTier {
        tier,
        stats: vec![AffixDefinitionStat {
            stat: Stat::Finesse,
            lower_bound_bits: 2.0f32.to_bits(),
            upper_bound_bits: 4.0f32.to_bits(),
        }],
        item_level_req: None,
        precision_places: Some(1),
    }
}

fn affix(id: u32) -> AffixDefinition {
    let mut tiers = BTreeMap::new();
    tiers.insert(1, tier(1));
    tiers.insert(2, tier(2));
    let placement = if id % 2 == 0 { AffixPlacement::Suffix } else { AffixPlacement::Prefix };
    AffixDefinition { id, placement, tiers, name: format!("affix {}", id) }
}

fn is_guid(text: &str) -> bool {
    let chars: Vec<char> = text.chars().collect();
    chars.len() == 36
        && chars.iter().enumerate().all(|(i, c)| {
            if i == 8 || i == 13 || i == 18 || i == 23 {
                *c == '-'
            } else {
                c.is_ascii_digit() || ('a'..='f').contains(c)
            }
        })
        && chars[14] == '4'
        && "89ab".contains(chars[19])
}

fn item_with<'db>(definition: &'db ItemDefinition<'db>, placed: &[&'db AffixDefinition]) -> ItemInstance<'db, u32> {
    ItemInstance {
        guid: "g".to_string(),
        definition,
        affixes: placed.iter().enumerate().map(|(i, a)| AffixInstance { definition: *a, tier: 1, stats: i as u32 }).collect(),
    }
}

#[test]
fn rarity_follows_the_prefix_and_suffix_counts() {
    let prefix = affix(1);
    let suffix = affix(2);
    let plain = ItemDefinition {
        id: 1,
        classification: ItemClassification::Currency,
        affix_pools: vec![],
        fixed_affixes: vec![],
        name: "plain".to_string(),
    };
    let fabled = ItemDefinition {
        id: 2,
        classification: ItemClassification::Currency,
        affix_pools: vec![],
        fixed_affixes: vec![&prefix],
        name: "fabled".to_string(),
    };
    let (p, s) = (&prefix, &suffix);
    assert_eq!(item_with(&plain, &[]).rarity(), ItemInstanceRarityTier::Common);
    assert_eq!(item_with(&plain, &[p, s]).rarity(), ItemInstanceRarityTier::Common);
    // Two prefixes are more than a common item carries.
    assert_eq!(item_with(&plain, &[p, p]).rarity(), ItemInstanceRarityTier::Uncommon);
    assert_eq!(item_with(&plain, &[p, p, s, s]).rarity(), ItemInstanceRarityTier::Uncommon);
    assert_eq!(item_with(&plain, &[p, s, s, s]).rarity(), ItemInstanceRarityTier::Rare);
    assert_eq!(item_with(&plain, &[p, p, p, s, s, s]).rarity(), ItemInstanceRarityTier::Rare);
    assert_eq!(item_with(&plain, &[p, p, s]).placement_counts(), (2, 1));
    assert!(!item_with(&plain, &[p, p, p, p]).has_rarity());
    assert!(item_with(&plain, &[p, p, p, s, s, s]).has_rarity());
    assert_eq!(item_with(&fabled, &[p, p, p, p, p]).rarity(), ItemInstanceRarityTier::Fabled);
}

#[test]
fn item_definitions_need_a_classification() {
    let invalid = ItemDefinition {
        id: 5,
        classification: ItemClassification::Invalid,
        affix_pools: vec![],
        fixed_affixes: vec![],
        name: "x".to_string(),
    };
    assert!(!invalid.validate());
    assert_eq!(invalid.id(), 5);
    let boots = ItemDefinition { classification: ItemClassification::Equippable(ItemEquipSlot::Boots), ..invalid.clone() };
    assert!(boots.validate());
    let database = ItemDefinitionDatabase::from_definitions(vec![invalid, boots]);
    assert!(database.validate());
    assert_eq!(database.definitions().len(), 1);
}

#[test]
fn default_criteria_weights() {
    let criteria = ItemDefinitionCriteria::default();
    assert_eq!(criteria.affix_count_weighting, vec![(1, 500), (2, 300), (3, 100), (4, 20), (5, 5), (6, 1)]);
    assert!(criteria.affix_generation_criteria.item_level.is_none());
}

#[test]
fn items_with_fixed_affixes_carry_exactly_those() {
    let affix_db = AffixDefinitionDatabase::from_definitions(vec![affix(1), affix(2), affix(3)]);
    let pool_db = AffixPoolDefinitionDatabase::from_definitions(vec![]);
    let definition = ItemDefinition {
        id: 10,
        classification: ItemClassification::Equippable(ItemEquipSlot::Head),
        affix_pools: vec![],
        fixed_affixes: vec![affix_db.definition(3).unwrap(), affix_db.definition(1).unwrap()],
        name: "crown".to_string(),
    };
    let generator = ItemGenerator;
    let criteria = ItemDefinitionCriteria::default();
    let mut guids = std::collections::HashSet::new();
    for _ in 0..20 {
        let item = generator.generate(&definition, &criteria, &(&affix_db, &pool_db)).unwrap();
        assert!(is_guid(&item.guid));
        guids.insert(item.guid.clone());
        assert_eq!(item.definition.id, 10);
        let ids: Vec<u32> = item.affixes.iter().map(|a| a.definition.id).collect();
        assert_eq!(ids, vec![3, 1]);
        assert_eq!(item.rarity(), ItemInstanceRarityTier::Fabled);
    }
    assert_eq!(guids.len(), 20);
}

#[test]
fn items_roll_a_weighted_number_of_pool_affixes() {
    let affix_db = AffixDefinitionDatabase::from_definitions(vec![affix(1), affix(2), affix(3)]);
    let pool = AffixPoolDefinition {
        id: 1,
        members: vec![
            AffixPoolMember { affix_def: affix_db.definition(1).unwrap(), weight: 3 },
            AffixPoolMember { affix_def: affix_db.definition(2).unwrap(), weight: 0 },
            AffixPoolMember { affix_def: affix_db.definition(3).unwrap(), weight: 1 },
        ],
        name: "pool".to_string(),
    };
    let pool_db = AffixPoolDefinitionDatabase::from_definitions(vec![pool]);
    let definition = ItemDefinition {
        id: 11,
        classification: ItemClassification::Equippable(ItemEquipSlot::Body),
        affix_pools: vec![pool_db.definition(1).unwrap()],
        fixed_affixes: vec![],
        name: "coat".to_string(),
    };
    let generator = ItemGenerator;
    let criteria = ItemDefinitionCriteria::default();
    for _ in 0..50 {
        let item = generator.generate(&definition, &criteria, &(&affix_db, &pool_db)).unwrap();
        assert!(item.affixes.len() >= 1 && item.affixes.len() <= 6);
        assert!(item.affixes.iter().all(|a| a.definition.id == 1 || a.definition.id == 3));
        assert!(item.affixes.iter().all(|a| a.tier == 1 || a.tier == 2));
        if item.has_rarity() {
            let _ = item.rarity();
        }
    }
    let exactly_four = ItemDefinitionCriteria {
        affix_count_weighting: vec![(2, 0), (4, 7)],
        affix_generation_criteria: AffixGenerationCriteria::default(),
    };
    for _ in 0..20 {
        let item = generator.generate(&definition, &exactly_four, &(&affix_db, &pool_db)).unwrap();
        assert_eq!(item.affixes.len(), 4);
        // Both affixes of the pool are prefixes.
        assert!(!item.has_rarity());
    }
}

#[test]
fn loot_pools_drop_their_weighted_items() {
    let affix_db = AffixDefinitionDatabase::from_definitions(vec![affix(1)]);
    let pool = AffixPoolDefinition {
        id: 1,
        members: vec![AffixPoolMember { affix_def: affix_db.definition(1).unwrap(), weight: 1 }],
        name: "pool".to_string(),
    };
    let pool_db = AffixPoolDefinitionDatabase::from_definitions(vec![pool]);
    let ring = ItemDefinition {
        id: 20,
        classification: ItemClassification::Equippable(ItemEquipSlot::Belt),
        affix_pools: vec![pool_db.definition(1).unwrap()],
        fixed_affixes: vec![],
        name: "belt".to_string(),
    };
    let coin = ItemDefinition {
        id: 21,
        classification: ItemClassification::Currency,
        affix_pools: vec![pool_db.definition(1).unwrap()],
        fixed_affixes: vec![],
        name: "coin".to_string(),
    };
    let item_db = ItemDefinitionDatabase::from_definitions(vec![ring, coin]);
    let loot = LootPoolDefinition {
        id: 1,
        name: "loot".to_string(),
        members: vec![
            LootPoolMember { item_def: item_db.definition(20).unwrap(), weight: 0 },
            LootPoolMember { item_def: item_db.definition(21).unwrap(), weight: 9 },
        ],
    };
    assert!(loot.validate());
    let loot_db = LootPoolDefinitionDatabase::from_definitions(vec![loot]);
    assert!(loot_db.validate());
    let generator = LootPoolItemGenerator::default();
    let definition = loot_db.definition(1).unwrap();
    for _ in 0..30 {
        let item = generator
            .generate(definition, &LootPoolCriteria::default(), &(&affix_db, &pool_db, &item_db))
            .unwrap();
        assert_eq!(item.definition.id, 21);
        assert!(item.affixes.len() >= 1 && item.affixes.len() <= 6);
        assert!(is_guid(&item.guid));
    }
}
