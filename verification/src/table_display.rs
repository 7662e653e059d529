//! Rows of text for showing definitions in a table: a header row per kind of definition and
//! a data row per definition.

use crate::affix::{AffixDefinition, AffixPlacement};
use crate::affix_pool::AffixPoolDefinition;
use crate::item::{ItemClassification, ItemDefinition, ItemEquipSlot};
use crate::loot_pool::LootPoolDefinition;
use vstd::prelude::*;

verus! {

pub trait TableDisplay {
    /// What strings should be displayed for the header row?
    /// eg ID, Name, etc
    fn header_row_values() -> Vec<&'static str>;

    /// What values from this type should be displayed in the data row?
    /// eg, if header row was ID, Name: 1, "Test Item"
    fn data_row_values(&self) -> Vec<String>;
}

/// The character of a decimal digit.
pub open spec fn digit_char(digit: nat) -> char {
    (digit + 48) as char
}

/// The decimal text of a number, without sign or leading zeros.
pub open spec fn decimal(n: nat) -> Seq<char>
    decreases n,
{
    if n < 10 {
        seq![digit_char(n)]
    } else {
        decimal(n / 10).push(digit_char(n % 10))
    }
}

/// The text of a single decimal digit.
fn digit_text(digit: u64) -> (text: &'static str)
    requires
        digit < 10,
    ensures
        text@ == seq![digit_char(digit as nat)],
{
    if digit == 0 {
        proof { reveal_strlit("0"); }
        "0"
    } else if digit == 1 {
        proof { reveal_strlit("1"); }
        "1"
    } else if digit == 2 {
        proof { reveal_strlit("2"); }
        "2"
    } else if digit == 3 {
        proof { reveal_strlit("3"); }
        "3"
    } else if digit == 4 {
        proof { reveal_strlit("4"); }
        "4"
    } else if digit == 5 {
        proof { reveal_strlit("5"); }
        "5"
    } else if digit == 6 {
        proof { reveal_strlit("6"); }
        "6"
    } else if digit == 7 {
        proof { reveal_strlit("7"); }
        "7"
    } else if digit == 8 {
        proof { reveal_strlit("8"); }
        "8"
    } else {
        proof { reveal_strlit("9"); }
        "9"
    }
}

/// A number written in decimal, without sign or leading zeros.
pub fn decimal_text(n: u64) -> (text: String)
    ensures
        text@ == decimal(n as nat),
    decreases n,
{
    if n < 10 {
        String::from_str(digit_text(n))
    } else {
        let mut text = decimal_text(n / 10);
        let digit = digit_text(n % 10);
        text.append(digit);
        assert(text@ == decimal((n / 10) as nat).push(digit_char((n % 10) as nat)));
        text
    }
}

/// The name of a placement, as its `Debug` form writes it.
pub open spec fn placement_name(placement: AffixPlacement) -> Seq<char> {
    match placement {
        AffixPlacement::Invalid => "Invalid"@,
        AffixPlacement::Prefix => "Prefix"@,
        AffixPlacement::Suffix => "Suffix"@,
    }
}

/// The name of a placement, as its `Debug` form writes it.
pub fn placement_text(placement: AffixPlacement) -> (text: String)
    ensures
        text@ == placement_name(placement),
{
    match placement {
        AffixPlacement::Invalid => "Invalid".to_owned(),
        AffixPlacement::Prefix => "Prefix".to_owned(),
        AffixPlacement::Suffix => "Suffix".to_owned(),
    }
}

/// The name of a classification, as its `Debug` form writes it.
pub open spec fn classification_name(classification: ItemClassification) -> Seq<char> {
    match classification {
        ItemClassification::Invalid => "Invalid"@,
        ItemClassification::Equippable(slot) => match slot {
            ItemEquipSlot::Head => "Equippable(Head)"@,
            ItemEquipSlot::LeftArm => "Equippable(LeftArm)"@,
            ItemEquipSlot::RightArm => "Equippable(RightArm)"@,
            ItemEquipSlot::Body => "Equippable(Body)"@,
            ItemEquipSlot::Belt => "Equippable(Belt)"@,
            ItemEquipSlot::Legs => "Equippable(Legs)"@,
            ItemEquipSlot::Boots => "Equippable(Boots)"@,
        },
        ItemClassification::Currency => "Currency"@,
    }
}

/// The name of a classification, as its `Debug` form writes it.
pub fn classification_text(classification: ItemClassification) -> (text: String)
    ensures
        text@ == classification_name(classification),
{
    match classification {
        ItemClassification::Invalid => "Invalid".to_owned(),
        ItemClassification::Equippable(slot) => match slot {
            ItemEquipSlot::Head => "Equippable(Head)".to_owned(),
            ItemEquipSlot::LeftArm => "Equippable(LeftArm)".to_owned(),
            ItemEquipSlot::RightArm => "Equippable(RightArm)".to_owned(),
            ItemEquipSlot::Body => "Equippable(Body)".to_owned(),
            ItemEquipSlot::Belt => "Equippable(Belt)".to_owned(),
            ItemEquipSlot::Legs => "Equippable(Legs)".to_owned(),
            ItemEquipSlot::Boots => "Equippable(Boots)".to_owned(),
        },
        ItemClassification::Currency => "Currency".to_owned(),
    }
}

/// A classification is written in its `Debug` form: the name of the variant, and for an
/// equippable item the name of its slot between round brackets.
pub proof fn lemma_classification_names_are_debug_forms()
    ensures
        classification_name(ItemClassification::Invalid) == "Invalid"@,
        classification_name(ItemClassification::Currency) == "Currency"@,
        classification_name(ItemClassification::Equippable(ItemEquipSlot::Head)) == "Equippable("@ + "Head"@ + ")"@,
        classification_name(ItemClassification::Equippable(ItemEquipSlot::LeftArm)) == "Equippable("@ + "LeftArm"@ + ")"@,
        classification_name(ItemClassification::Equippable(ItemEquipSlot::RightArm)) == "Equippable("@ + "RightArm"@ + ")"@,
        classification_name(ItemClassification::Equippable(ItemEquipSlot::Body)) == "Equippable("@ + "Body"@ + ")"@,
        classification_name(ItemClassification::Equippable(ItemEquipSlot::Belt)) == "Equippable("@ + "Belt"@ + ")"@,
        classification_name(ItemClassification::Equippable(ItemEquipSlot::Legs)) == "Equippable("@ + "Legs"@ + ")"@,
        classification_name(ItemClassification::Equippable(ItemEquipSlot::Boots)) == "Equippable("@ + "Boots"@ + ")"@,
{
    reveal_strlit("Equippable(");
    reveal_strlit(")");
    reveal_strlit("Equippable(Head)");
    reveal_strlit("Head");
    reveal_strlit("Equippable(LeftArm)");
    reveal_strlit("LeftArm");
    reveal_strlit("Equippable(RightArm)");
    reveal_strlit("RightArm");
    reveal_strlit("Equippable(Body)");
    reveal_strlit("Body");
    reveal_strlit("Equippable(Belt)");
    reveal_strlit("Belt");
    reveal_strlit("Equippable(Legs)");
    reveal_strlit("Legs");
    reveal_strlit("Equippable(Boots)");
    reveal_strlit("Boots");
    assert(classification_name(ItemClassification::Equippable(ItemEquipSlot::Head)) =~= "Equippable("@ + "Head"@ + ")"@);
    assert(classification_name(ItemClassification::Equippable(ItemEquipSlot::LeftArm)) =~= "Equippable("@ + "LeftArm"@ + ")"@);
    assert(classification_name(ItemClassification::Equippable(ItemEquipSlot::RightArm)) =~= "Equippable("@ + "RightArm"@ + ")"@);
    assert(classification_name(ItemClassification::Equippable(ItemEquipSlot::Body)) =~= "Equippable("@ + "Body"@ + ")"@);
    assert(classification_name(ItemClassification::Equippable(ItemEquipSlot::Belt)) =~= "Equippable("@ + "Belt"@ + ")"@);
    assert(classification_name(ItemClassification::Equippable(ItemEquipSlot::Legs)) =~= "Equippable("@ + "Legs"@ + ")"@);
    assert(classification_name(ItemClassification::Equippable(ItemEquipSlot::Boots)) =~= "Equippable("@ + "Boots"@ + ")"@);
}

/// Distinct classifications are written differently.
pub proof fn lemma_classification_names_are_distinct(a: ItemClassification, b: ItemClassification)
    ensures
        classification_name(a) == classification_name(b) ==> a == b,
{
    reveal_strlit("Invalid");
    reveal_strlit("Currency");
    reveal_strlit("Equippable(Head)");
    reveal_strlit("Equippable(LeftArm)");
    reveal_strlit("Equippable(RightArm)");
    reveal_strlit("Equippable(Body)");
    reveal_strlit("Equippable(Belt)");
    reveal_strlit("Equippable(Legs)");
    reveal_strlit("Equippable(Boots)");
    if classification_name(a) == classification_name(b) {
        let name = classification_name(a);
        assert(name.len() == classification_name(b).len());
        assert(name[0] == classification_name(b)[0]);
        if name.len() > 12 {
            assert(name[11] == classification_name(b)[11]);
            assert(name[12] == classification_name(b)[12]);
        }
    }
}

/// The texts of a row.
pub open spec fn row_texts(row: Seq<String>) -> Seq<Seq<char>> {
    row.map_values(|text: String| text@)
}

/// The texts of a header row.
pub open spec fn header_texts(row: Seq<&'static str>) -> Seq<Seq<char>> {
    row.map_values(|text: &'static str| text@)
}

impl TableDisplay for AffixDefinition {
    fn header_row_values() -> (headers: Vec<&'static str>)
        ensures
            header_texts(headers@) == seq!["Id"@, "Name"@, "Placement"@, "Tiers"@],
    {
        let headers = vec!["Id", "Name", "Placement", "Tiers"];
        assert(header_texts(headers@) == seq!["Id"@, "Name"@, "Placement"@, "Tiers"@]);
        headers
    }

    fn data_row_values(&self) -> (row: Vec<String>)
        ensures
            row_texts(row@) == seq![
                decimal(self.id as nat),
                self.name@,
                placement_name(self.placement),
                decimal(self.tiers@.dom().len()),
            ],
    {
        let row = vec![
            decimal_text(self.id as u64),
            self.name.clone(),
            placement_text(self.placement),
            decimal_text(self.tiers.len() as u64),
        ];
        assert(row_texts(row@) == seq![
            decimal(self.id as nat),
            self.name@,
            placement_name(self.placement),
            decimal(self.tiers@.dom().len()),
        ]);
        row
    }
}

impl<'db> TableDisplay for AffixPoolDefinition<'db> {
    fn header_row_values() -> (headers: Vec<&'static str>)
        ensures
            header_texts(headers@) == seq!["Id"@, "Name"@, "Members"@],
    {
        let headers = vec!["Id", "Name", "Members"];
        assert(header_texts(headers@) == seq!["Id"@, "Name"@, "Members"@]);
        headers
    }

    fn data_row_values(&self) -> (row: Vec<String>)
        ensures
            row_texts(row@) == seq![decimal(self.id as nat), self.name@, decimal(self.members@.len())],
    {
        let row = vec![
            decimal_text(self.id as u64),
            self.name.clone(),
            decimal_text(self.members.len() as u64),
        ];
        assert(row_texts(row@) == seq![decimal(self.id as nat), self.name@, decimal(self.members@.len())]);
        row
    }
}

impl<'db> TableDisplay for ItemDefinition<'db> {
    fn header_row_values() -> (headers: Vec<&'static str>)
        ensures
            header_texts(headers@) == seq!["Id"@, "Name"@, "Classification"@, "Pools"@],
    {
        let headers = vec!["Id", "Name", "Classification", "Pools"];
        assert(header_texts(headers@) == seq!["Id"@, "Name"@, "Classification"@, "Pools"@]);
        headers
    }

    fn data_row_values(&self) -> (row: Vec<String>)
        ensures
            row_texts(row@) == seq![
                decimal(self.id as nat),
                self.name@,
                classification_name(self.classification),
                decimal(self.affix_pools@.len()),
            ],
    {
        let row = vec![
            decimal_text(self.id),
            self.name.clone(),
            classification_text(self.classification),
            decimal_text(self.affix_pools.len() as u64),
        ];
        assert(row_texts(row@) == seq![
            decimal(self.id as nat),
            self.name@,
            classification_name(self.classification),
            decimal(self.affix_pools@.len()),
        ]);
        row
    }
}

impl<'db> TableDisplay for LootPoolDefinition<'db> {
    fn header_row_values() -> (headers: Vec<&'static str>)
        ensures
            header_texts(headers@) == seq!["Id"@, "Name"@, "Members"@],
    {
        let headers = vec!["Id", "Name", "Members"];
        assert(header_texts(headers@) == seq!["Id"@, "Name"@, "Members"@]);
        headers
    }

    fn data_row_values(&self) -> (row: Vec<String>)
        ensures
            row_texts(row@) == seq![decimal(self.id as nat), self.name@, decimal(self.members@.len())],
    {
        let row = vec![
            decimal_text(self.id as u64),
            self.name.clone(),
            decimal_text(self.members.len() as u64),
        ];
        assert(row_texts(row@) == seq![decimal(self.id as nat), self.name@, decimal(self.members@.len())]);
        row
    }
}

} // verus!
