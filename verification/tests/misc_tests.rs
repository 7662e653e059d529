use cypher::affix::{AffixDefinition, AffixPlacement};
use cypher::item::{ItemClassification, ItemDefinition, ItemEquipSlot};
use cypher::simulation::{requested_mode, SimulationMode};
use cypher::table_display::{classification_text, decimal_text, placement_text, TableDisplay};
use std::collections::BTreeMap;

fn args(list: &[&str]) -> Vec<String> {
    list.iter().map(|s| s.to_string()).collect()
}

#[test]
fn arguments_choose_the_simulation_mode() {
    assert_eq!(requested_mode(&args(&["game"])), Some(SimulationMode::ClientAndServer));
    assert_eq!(requested_mode(&args(&["game", "client"])), Some(SimulationMode::ClientOnly));
    assert_eq!(requested_mode(&args(&["game", "server"])), Some(SimulationMode::ServerOnly));
    assert_eq!(requested_mode(&args(&["game", "server", "client"])), None);
    assert_eq!(requested_mode(&args(&["game", "clients"])), Some(SimulationMode::ClientAndServer));
}

#[test]
fn table_rows_show_definitions() {
    assert_eq!(AffixDefinition::header_row_values(), vec!["Id", "Name", "Placement", "Tiers"]);
    let affix = AffixDefinition { id: 120, placement: AffixPlacement::Suffix, tiers: BTreeMap::new(), name: "of Haste".to_string() };
    assert_eq!(affix.data_row_values(), vec!["120", "of Haste", "Suffix", "0"]);
    assert_eq!(ItemDefinition::header_row_values(), vec!["Id", "Name", "Classification", "Pools"]);
    let item = ItemDefinition {
        id: 9,
        classification: ItemClassification::Equippable(ItemEquipSlot::LeftArm),
        affix_pools: vec![],
        fixed_affixes: vec![],
        name: "shield".to_string(),
    };
    assert_eq!(item.data_row_values(), vec!["9", "shield", "Equippable(LeftArm)", "0"]);
    assert_eq!(classification_text(ItemClassification::Currency), format!("{:?}", ItemClassification::Currency));
    assert_eq!(placement_text(AffixPlacement::Prefix), format!("{:?}", AffixPlacement::Prefix));
}

#[test]
fn numbers_are_written_in_decimal() {
    assert_eq!(decimal_text(0), "0");
    assert_eq!(decimal_text(7), "7");
    assert_eq!(decimal_text(10), "10");
    assert_eq!(decimal_text(120), "120");
    assert_eq!(decimal_text(u64::MAX), u64::MAX.to_string());
}
