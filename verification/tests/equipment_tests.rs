use cypher::affix::{AffixDefinition, AffixPlacement};
use cypher::affix_generation::AffixInstance;
use cypher::equipment::{EquipError, Equipment};
use cypher::item::{ItemClassification, ItemDefinition, ItemEquipSlot, ItemInstance};
use std::collections::BTreeMap;

fn definition(id: u64, classification: ItemClassification, name: &str) -> ItemDefinition<'static> {
    ItemDefinition { id, classification, affix_pools: vec![], fixed_affixes: vec![], name: String::from(name) }
}

#[test]
fn can_equip_if_slot_empty() {
    let head_def = definition(1, ItemClassification::Equippable(ItemEquipSlot::Head), "test item");
    let head_item: ItemInstance<u32> = ItemInstance { guid: "a".to_string(), definition: &head_def, affixes: vec![] };

    let mut equipment = Equipment::new();
    let old_item = equipment.equip(head_item);

    assert!(old_item.is_ok());
    assert!(old_item.unwrap().is_none());
}

#[test]
fn can_equip_if_slot_filled_and_returns_old() {
    let equipped_def = definition(1, ItemClassification::Equippable(ItemEquipSlot::Head), "test item");
    let new_def = definition(2, ItemClassification::Equippable(ItemEquipSlot::Head), "test item");
    let head_item_equipped: ItemInstance<u32> =
        ItemInstance { guid: "a".to_string(), definition: &equipped_def, affixes: vec![] };
    let head_item_new: ItemInstance<u32> = ItemInstance { guid: "b".to_string(), definition: &new_def, affixes: vec![] };

    let mut equipment = Equipment::new();
    equipment.head = Some(head_item_equipped);

    let old_item = equipment.equip(head_item_new);

    assert!(old_item.as_ref().is_ok());
    assert!(old_item.as_ref().unwrap().is_some());
    assert_eq!(old_item.unwrap().unwrap().definition.id, 1); // ensure the old item is returned
    assert_eq!(equipment.head.unwrap().definition.id, 2); // ensure the new item is correctly stored
}

#[test]
fn can_only_equip_equipables() {
    let currency_def = definition(1, ItemClassification::Currency, "test currency");
    let currency: ItemInstance<u32> = ItemInstance { guid: "c".to_string(), definition: &currency_def, affixes: vec![] };

    let mut equipment = Equipment::new();
    let currency_result = equipment.equip(currency);

    assert!(currency_result.is_err());
    assert_eq!(currency_result.unwrap_err(), EquipError::NotEquipable);
    assert!(equipment.head.is_none() && equipment.boots.is_none());
}

#[test]
fn equipping_back_restores_the_slot() {
    let first_def = definition(1, ItemClassification::Equippable(ItemEquipSlot::Legs), "first");
    let second_def = definition(2, ItemClassification::Equippable(ItemEquipSlot::Legs), "second");
    let mut equipment: Equipment<u32> = Equipment::default();
    equipment.equip(ItemInstance { guid: "1".to_string(), definition: &first_def, affixes: vec![] }).unwrap();
    let previous = equipment
        .equip(ItemInstance { guid: "2".to_string(), definition: &second_def, affixes: vec![] })
        .unwrap()
        .unwrap();
    assert_eq!(previous.guid, "1");
    let answered = equipment.equip(previous).unwrap().unwrap();
    assert_eq!(answered.guid, "2");
    assert_eq!(equipment.legs.as_ref().unwrap().guid, "1");
    assert!(equipment.head.is_none());
}

#[test]
fn stats_come_slot_after_slot() {
    let affix_def = AffixDefinition { id: 1, placement: AffixPlacement::Prefix, tiers: BTreeMap::new(), name: "a".to_string() };
    let head_def = definition(1, ItemClassification::Equippable(ItemEquipSlot::Head), "hat");
    let boots_def = definition(2, ItemClassification::Equippable(ItemEquipSlot::Boots), "boots");
    let affix_with = |stats: u32| AffixInstance { definition: &affix_def, tier: 1, stats };
    let mut equipment = Equipment::new();
    equipment
        .equip(ItemInstance { guid: "b".to_string(), definition: &boots_def, affixes: vec![affix_with(7)] })
        .unwrap();
    equipment
        .equip(ItemInstance { guid: "h".to_string(), definition: &head_def, affixes: vec![affix_with(1), affix_with(2)] })
        .unwrap();
    assert_eq!(equipment.stats(), vec![1, 2, 7]);
    assert!(Equipment::<u32>::new().stats().is_empty());
}
