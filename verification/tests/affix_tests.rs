use cypher::affix::{
    AffixDefinition, AffixDefinitionDatabase, AffixDefinitionStat, AffixDefinitionTier, AffixPlacement,
};
use cypher::affix_generation::{AffixGenerationCriteria, AffixGenerator};
use cypher::affix_pool::{
    AffixPoolDefinition, AffixPoolDefinitionDatabase, AffixPoolGenerationCriteria, AffixPoolGenerator,
    AffixPoolMember,
};
use cypher::data::{DataDefinition, DataDefinitionDatabase, DataInstanceGenerator};
use cypher::stat::Stat;
use std::collections::{BTreeMap, HashSet};

fn tier(tier: u16, level: Option<u8>) -> AffixDefinitionTier {
    AffixDefinitionTier {
        tier,
        stats: vec![AffixDefinitionStat {
            stat: Stat::Health,
            lower_bound_bits: 1.0f32.to_bits(),
            upper_bound_bits: 3.0f32.to_bits(),
        }],
        item_level_req: level,
        precision_places: None,
    }
}

fn affix(id: u32, placement: AffixPlacement, tiers: Vec<AffixDefinitionTier>) -> AffixDefinition {
    let mut map = BTreeMap::new();
    for t in tiers {
        map.insert(t.tier, t);
    }
    AffixDefinition { id, placement, tiers: map, name: format!("affix {}", id) }
}

fn sample_database() -> AffixDefinitionDatabase {
    let mut definitions = vec![];
    for id in 1..=5u32 {
        let placement = if id % 2 == 1 { AffixPlacement::Prefix } else { AffixPlacement::Suffix };
        definitions.push(affix(id, placement, vec![tier(1, None), tier(2, None), tier(3, Some(10))]));
    }
    AffixDefinitionDatabase::from_definitions(definitions)
}

#[test]
fn affix_criteria_only_contains_allowed_ids() {
    let affix_database = sample_database();

    let mut affixes = vec![];

    let mut allowed = HashSet::new();
    allowed.insert(1);

    let criteria = AffixGenerationCriteria {
        allowed_ids: Some(allowed.clone()),
        ..Default::default()
    };

    for _ in 0..=1000 {
        let affix = affix_database.generate(&criteria);
        affixes.push(affix);
    }

    for affix in affixes {
        assert!(allowed.contains(&affix.unwrap().definition.id));
    }
}

#[test]
fn affix_criteria_does_not_contain_disallowed_ids() {
    let affix_database = sample_database();

    let mut affixes = vec![];

    let mut disallowed = HashSet::new();
    disallowed.insert(2);
    disallowed.insert(3);
    disallowed.insert(4);

    let criteria = AffixGenerationCriteria {
        disallowed_ids: Some(disallowed.clone()),
        ..Default::default()
    };

    for _ in 0..=1000 {
        let affix = affix_database.generate(&criteria);
        affixes.push(affix);
    }

    for affix in affixes {
        assert!(!disallowed.contains(&affix.unwrap().definition.id));
    }
}

#[test]
fn affix_criteria_only_prefixes() {
    let affix_database = sample_database();

    let mut affixes = vec![];

    let criteria = AffixGenerationCriteria {
        placement: Some(AffixPlacement::Prefix),
        ..Default::default()
    };

    for _ in 0..=1000 {
        let affix = affix_database.generate(&criteria);
        affixes.push(affix);
    }

    let ids: HashSet<u32> = affixes.iter().map(|a| a.as_ref().unwrap().definition.id).collect();
    assert_eq!(ids.len(), 3);

    for affix in affixes {
        let definition = affix_database.definition(affix.unwrap().definition.id).unwrap();
        assert!(definition.placement == AffixPlacement::Prefix);
    }
}

#[test]
fn criteria_that_exclude_everything_give_nothing() {
    let affix_database = sample_database();
    let mut allowed = HashSet::new();
    allowed.insert(2);
    let criteria = AffixGenerationCriteria {
        allowed_ids: Some(allowed),
        placement: Some(AffixPlacement::Prefix),
        ..Default::default()
    };
    for _ in 0..50 {
        assert!(affix_database.generate(&criteria).is_none());
    }
}

#[test]
fn maximum_tier_and_level_bound_the_tier() {
    let affix_database = sample_database();
    let criteria = AffixGenerationCriteria { maximum_tier: Some(1), ..Default::default() };
    for _ in 0..100 {
        assert_eq!(affix_database.generate(&criteria).unwrap().tier, 1);
    }
    let criteria = AffixGenerationCriteria { item_level: Some(10), ..Default::default() };
    let mut seen = HashSet::new();
    for _ in 0..300 {
        let a = affix_database.generate(&criteria).unwrap();
        assert_eq!(a.tier, a.stats.tier);
        seen.insert(a.tier);
    }
    assert!(seen.iter().all(|t| *t >= 1 && *t <= 3));
    // Each allowed tier is drawn in so many tries.
    assert_eq!(seen.len(), 3);
    let criteria = AffixGenerationCriteria::default();
    for _ in 0..100 {
        assert!(affix_database.generate(&criteria).unwrap().tier <= 2);
    }
}

#[test]
fn tiers_come_in_order_and_stop_at_the_bound() {
    let definition = affix(7, AffixPlacement::Suffix, vec![tier(3, None), tier(1, None), tier(5, None)]);
    let all: Vec<u16> = definition.tiers().iter().map(|t| t.tier).collect();
    assert_eq!(all, vec![1, 3, 5]);
    let some: Vec<u16> = definition.tiers_to(&4).iter().map(|t| t.tier).collect();
    assert_eq!(some, vec![1, 3]);
    assert!(definition.tiers_to(&0).is_empty());
}

#[test]
fn affix_generator_respects_item_level() {
    let definition = affix(8, AffixPlacement::Prefix, vec![tier(1, Some(5)), tier(2, Some(20))]);
    let generator = AffixGenerator {};
    let low = AffixGenerationCriteria { item_level: Some(4), ..Default::default() };
    assert!(generator.generate(&definition, &low, &()).is_none());
    let mid = AffixGenerationCriteria { item_level: Some(5), ..Default::default() };
    for _ in 0..50 {
        let a = generator.generate(&definition, &mid, &()).unwrap();
        assert_eq!(a.tier, 1);
        assert_eq!(a.definition.id, 8);
    }
}

#[test]
fn definitions_validate() {
    let good = affix(1, AffixPlacement::Prefix, vec![tier(1, None)]);
    assert!(good.validate());
    assert_eq!(good.id(), 1);
    let invalid_placement = affix(1, AffixPlacement::Invalid, vec![tier(1, None)]);
    assert!(!invalid_placement.validate());
    let no_tiers = affix(1, AffixPlacement::Prefix, vec![]);
    assert!(!no_tiers.validate());
    let zero_id = affix(0, AffixPlacement::Prefix, vec![tier(1, None)]);
    assert!(!zero_id.validate());
    let empty_tier = AffixDefinitionTier { tier: 1, stats: vec![], item_level_req: None, precision_places: None };
    assert!(!empty_tier.validate());
    assert!(sample_database().validate());
    assert!(!AffixDefinitionDatabase::from_definitions(vec![]).validate());
}

#[test]
fn database_lists_and_replaces_definitions() {
    let mut database = sample_database();
    let mut ids: Vec<u32> = database.definitions().iter().map(|d| d.id).collect();
    ids.sort();
    assert_eq!(ids, vec![1, 2, 3, 4, 5]);
    database.add_definition(affix(3, AffixPlacement::Suffix, vec![tier(1, None)]));
    assert_eq!(database.definitions().len(), 5);
    assert_eq!(database.definition(3).unwrap().placement, AffixPlacement::Suffix);
    assert!(database.definition(9).is_none());
}

#[test]
fn pool_picks_only_weighted_members_that_meet_the_criteria() {
    let affix_database = sample_database();
    let a1 = affix_database.definition(1).unwrap();
    let a2 = affix_database.definition(2).unwrap();
    let a3 = affix_database.definition(3).unwrap();
    let pool = AffixPoolDefinition {
        id: 1,
        members: vec![
            AffixPoolMember { affix_def: a1, weight: 0 },
            AffixPoolMember { affix_def: a2, weight: 10 },
            AffixPoolMember { affix_def: a3, weight: 5 },
        ],
        name: "pool".to_string(),
    };
    let generator = AffixPoolGenerator {};
    let db = &affix_database;
    let mut drawn = HashSet::new();
    for _ in 0..200 {
        let chosen = generator.generate(&pool, &AffixPoolGenerationCriteria::default(), &db).unwrap();
        assert!(chosen.id == 2 || chosen.id == 3);
        drawn.insert(chosen.id);
    }
    assert_eq!(drawn.len(), 2);
    let prefixes = AffixPoolGenerationCriteria { placement: Some(AffixPlacement::Prefix), ..Default::default() };
    for _ in 0..100 {
        assert_eq!(generator.generate(&pool, &prefixes, &db).unwrap().id, 3);
    }
    let mut only_first = HashSet::new();
    only_first.insert(1);
    let zero_weight = AffixPoolGenerationCriteria { allowed_ids: Some(only_first), ..Default::default() };
    assert!(generator.generate(&pool, &zero_weight, &db).is_none());
    let filtered = AffixPoolGenerator::filter_members(&pool, &prefixes);
    assert_eq!(filtered.len(), 2);
    assert_eq!(AffixPoolGenerator::weights_of(&filtered), vec![0, 5]);
}

#[test]
fn pool_database_keeps_the_last_pool_of_an_id() {
    let affix_database = sample_database();
    let a1 = affix_database.definition(1).unwrap();
    let first = AffixPoolDefinition { id: 4, members: vec![], name: "first".to_string() };
    let second = AffixPoolDefinition {
        id: 4,
        members: vec![AffixPoolMember { affix_def: a1, weight: 1 }],
        name: "second".to_string(),
    };
    let pools = AffixPoolDefinitionDatabase::from_definitions(vec![first, second]);
    assert_eq!(pools.definition(4).unwrap().name, "second");
    assert_eq!(pools.definitions().len(), 1);
    assert!(pools.validate());
    let temp = AffixPoolDefinition::with_members(vec![AffixPoolMember { affix_def: a1, weight: 2 }]);
    assert_eq!(temp.id, 0);
    assert_eq!(temp.name, "from_members temp");
    assert!(temp.validate());
}

#[test]
fn tiers_start_at_tier_one() {
    let definition = affix(9, AffixPlacement::Prefix, vec![tier(0, None), tier(1, None), tier(2, None)]);
    assert!(definition.tiers_to(&0).is_empty());
    let upto_one: Vec<u16> = definition.tiers_to(&1).iter().map(|t| t.tier).collect();
    assert_eq!(upto_one, vec![1]);
    let all: Vec<u16> = definition.tiers().iter().map(|t| t.tier).collect();
    assert_eq!(all, vec![1, 2]);
}

#[test]
fn affix_generator_respects_maximum_tier() {
    let generator = AffixGenerator {};
    let only_five = affix(10, AffixPlacement::Suffix, vec![tier(5, None)]);
    let capped = AffixGenerationCriteria { maximum_tier: Some(1), ..Default::default() };
    assert!(generator.generate(&only_five, &capped, &()).is_none());
    let uncapped = AffixGenerationCriteria::default();
    assert_eq!(generator.generate(&only_five, &uncapped, &()).unwrap().tier, 5);
    let several = affix(11, AffixPlacement::Suffix, vec![tier(1, None), tier(2, None), tier(3, None)]);
    let up_to_two = AffixGenerationCriteria { maximum_tier: Some(2), ..Default::default() };
    for _ in 0..50 {
        assert!(generator.generate(&several, &up_to_two, &()).unwrap().tier <= 2);
    }
}
