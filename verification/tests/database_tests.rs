use cypher::affix::{
    AffixDefinition, AffixDefinitionDatabase, AffixDefinitionStat, AffixDefinitionTier, AffixPlacement,
};
use cypher::affix_generation::AffixGenerationCriteria;
use cypher::affix_pool::AffixPoolDefinitionDatabase;
use cypher::data::{DataDefinitionDatabase, DataInstanceGenerator};
use cypher::item::{ItemClassification, ItemDefinitionDatabase, ItemEquipSlot};
use cypher::item_generation::{ItemDefinitionCriteria, ItemGenerator};
use cypher::loading::{
    resolve_affix_pool, resolve_item_definition, resolve_loot_pool, AffixPoolDefinitionRecord,
    AffixPoolMemberRecord, ItemDefinitionRecord, LootPoolDefinitionRecord, LootPoolMemberRecord,
};
use cypher::loot_pool::{LootPoolCriteria, LootPoolDefinitionDatabase, LootPoolItemGenerator};
use cypher::stat::Stat;
use std::collections::BTreeMap;

// Game data of the kind the data files hold: five affixes, two pools, three items, one
// loot pool.

fn affix_database() -> AffixDefinitionDatabase {
    let mut definitions = vec![];
    for id in 1..=5u32 {
        let mut tiers = BTreeMap::new();
        for tier in 1..=3u16 {
            tiers.insert(
                tier,
                AffixDefinitionTier {
                    tier,
                    stats: vec![AffixDefinitionStat {
                        stat: Stat::Health,
                        lower_bound_bits: (tier as f32).to_bits(),
                        upper_bound_bits: (tier as f32 * 2.0).to_bits(),
                    }],
                    item_level_req: if tier == 3 { Some(20) } else { None },
                    precision_places: Some(1),
                },
            );
        }
        let placement = if id % 2 == 1 { AffixPlacement::Prefix } else { AffixPlacement::Suffix };
        definitions.push(AffixDefinition { id, placement, tiers, name: format!("affix {}", id) });
    }
    AffixDefinitionDatabase::from_definitions(definitions)
}

fn affix_pool_database(affix_db: &AffixDefinitionDatabase) -> AffixPoolDefinitionDatabase<'_> {
    let records = vec![
        AffixPoolDefinitionRecord {
            id: 1,
            members: (1..=3)
                .map(|id| AffixPoolMemberRecord { affix_id: Some(id), weight: 10 * id as u64 })
                .collect(),
            name: "weapons".to_string(),
        },
        AffixPoolDefinitionRecord {
            id: 2,
            members: (3..=5).map(|id| AffixPoolMemberRecord { affix_id: Some(id), weight: 5 }).collect(),
            name: "armour".to_string(),
        },
    ];
    AffixPoolDefinitionDatabase::from_definitions(
        records
            .into_iter()
            .map(|record| {
                assert!(record.can_resolve(affix_db));
                resolve_affix_pool(record, affix_db)
            })
            .collect(),
    )
}

fn item_database<'db>(
    affix_db: &'db AffixDefinitionDatabase,
    pool_db: &'db AffixPoolDefinitionDatabase<'db>,
) -> ItemDefinitionDatabase<'db> {
    let records = vec![
        ItemDefinitionRecord {
            id: 1,
            classification: ItemClassification::Equippable(ItemEquipSlot::RightArm),
            affix_pool_ids: vec![1],
            fixed_affix_ids: vec![],
            name: "sword".to_string(),
        },
        ItemDefinitionRecord {
            id: 2,
            classification: ItemClassification::Equippable(ItemEquipSlot::Body),
            affix_pool_ids: vec![1, 2],
            fixed_affix_ids: vec![],
            name: "coat".to_string(),
        },
        ItemDefinitionRecord {
            id: 3,
            classification: ItemClassification::Equippable(ItemEquipSlot::Head),
            affix_pool_ids: vec![],
            fixed_affix_ids: vec![4, 5],
            name: "crown".to_string(),
        },
    ];
    ItemDefinitionDatabase::from_definitions(
        records
            .into_iter()
            .map(|record| {
                assert!(record.can_resolve(affix_db, pool_db));
                resolve_item_definition(record, affix_db, pool_db)
            })
            .collect(),
    )
}

fn loot_pool_database<'db>(item_db: &'db ItemDefinitionDatabase<'db>) -> LootPoolDefinitionDatabase<'db> {
    let record = LootPoolDefinitionRecord {
        id: 1,
        name: "goblin".to_string(),
        members: vec![
            LootPoolMemberRecord { item_id: Some(1), weight: 50 },
            LootPoolMemberRecord { item_id: Some(2), weight: 30 },
            LootPoolMemberRecord { item_id: Some(3), weight: 1 },
        ],
    };
    assert!(record.can_resolve(item_db));
    LootPoolDefinitionDatabase::from_definitions(vec![resolve_loot_pool(record, item_db)])
}

#[test]
fn affix_init_affix_database() {
    let affix_database = affix_database();

    let affix = affix_database.generate(&AffixGenerationCriteria::default());

    assert!(affix.is_some());
}

#[test]
fn database_init_affix_database() {
    let affix_database = affix_database();
    assert!(affix_database.validate());
}

#[test]
fn pool_init_affix_pool_database() {
    let affix_db = affix_database();
    let _affix_pool_db = affix_pool_database(&affix_db);
}

#[test]
fn database_init_affix_pool_database() {
    let affix_db = affix_database();
    let affix_pool_db = affix_pool_database(&affix_db);
    assert!(affix_pool_db.validate());
}

#[test]
fn item_init_item_database() {
    let affix_db = affix_database();
    let affix_pool_db = affix_pool_database(&affix_db);
    let _item_db = item_database(&affix_db, &affix_pool_db);
}

#[test]
fn database_init_item_database() {
    let affix_db = affix_database();
    let affix_pool_db = affix_pool_database(&affix_db);
    let item_db = item_database(&affix_db, &affix_pool_db);
    assert!(item_db.validate());
}

#[test]
fn mod_init_item_database() {
    let affix_db = affix_database();
    let affix_pool_db = affix_pool_database(&affix_db);
    let item_db = item_database(&affix_db, &affix_pool_db);
    assert_eq!(item_db.definitions().len(), 3);
}

#[test]
fn item_loot_generation() {
    let affix_database = affix_database();
    let affix_pool_database = affix_pool_database(&affix_database);
    let item_database = item_database(&affix_database, &affix_pool_database);
    let definition = item_database.definition(2).unwrap();
    for _ in 0..10 {
        let _ = definition.generate(&affix_database, &affix_pool_database, &ItemDefinitionCriteria::default());
    }
}

#[test]
fn generator_loot_generation() {
    let affix_database = affix_database();
    let affix_pool_database = affix_pool_database(&affix_database);
    let item_database = item_database(&affix_database, &affix_pool_database);

    let definitions = item_database.definitions();
    let definition = definitions[definitions.len() / 2];

    let criteria = ItemDefinitionCriteria::default();

    let item_generator = ItemGenerator;
    for _ in 0..10 {
        let _ = item_generator.generate(definition, &criteria, &(&affix_database, &affix_pool_database));
    }
}

#[test]
fn database_loot_pool_initialize() {
    let affix_database = affix_database();
    let affix_pool_database = affix_pool_database(&affix_database);
    let item_database = item_database(&affix_database, &affix_pool_database);
    let loot_pool_database = loot_pool_database(&item_database);

    assert!(loot_pool_database.validate())
}

#[test]
fn mod_loot_pool_initialize() {
    let affix_database = affix_database();
    let affix_pool_database = affix_pool_database(&affix_database);
    let item_database = item_database(&affix_database, &affix_pool_database);
    let loot_pool_database = loot_pool_database(&item_database);

    assert!(loot_pool_database.validate())
}

#[test]
fn generator_loot_pool_generation() {
    let affix_database = affix_database();
    let affix_pool_database = affix_pool_database(&affix_database);
    let item_database = item_database(&affix_database, &affix_pool_database);
    let loot_pool_database = loot_pool_database(&item_database);

    let definition = loot_pool_database.definition(1).unwrap();

    let generator = LootPoolItemGenerator;

    for _ in 0..10 {
        let item = generator.generate(
            definition,
            &LootPoolCriteria::default(),
            &(&affix_database, &affix_pool_database, &item_database),
        );
        println!("{:?}", item);
    }
}

#[test]
fn mod_loot_pool_generation() {
    let affix_database = affix_database();
    let affix_pool_database = affix_pool_database(&affix_database);
    let item_database = item_database(&affix_database, &affix_pool_database);
    let loot_pool_database = loot_pool_database(&item_database);

    let definition = loot_pool_database.definition(1).unwrap();

    for _ in 0..10 {
        let item = definition.generate(&item_database, &affix_database, &affix_pool_database, &LootPoolCriteria::default());
        println!("{:?}", item);
    }
}
