//! What a character wears: one item in each equipment slot.

use crate::item::{ItemClassification, ItemEquipSlot, ItemInstance};
use vstd::prelude::*;

verus! {

/// The items worn, one slot each. An item's affixes carry stats `S`.
pub struct Equipment<'db, S> {
    pub head: Option<ItemInstance<'db, S>>,
    pub left_arm: Option<ItemInstance<'db, S>>,
    pub right_arm: Option<ItemInstance<'db, S>>,
    pub body: Option<ItemInstance<'db, S>>,
    pub belt: Option<ItemInstance<'db, S>>,
    pub legs: Option<ItemInstance<'db, S>>,
    pub boots: Option<ItemInstance<'db, S>>,
}

#[derive(Debug, PartialEq, Eq, Structural)]
pub enum EquipError {
    NotEquipable,
}

/// The slot an item goes in, if it can be equipped.
pub open spec fn slot_of<'db, S>(item: ItemInstance<'db, S>) -> Option<ItemEquipSlot> {
    match item.definition.classification {
        ItemClassification::Equippable(slot) => Some(slot),
        _ => None,
    }
}

impl<'db, S> Equipment<'db, S> {
    /// The item worn in a slot.
    pub open spec fn slot(self, slot: ItemEquipSlot) -> Option<ItemInstance<'db, S>> {
        match slot {
            ItemEquipSlot::Head => self.head,
            ItemEquipSlot::LeftArm => self.left_arm,
            ItemEquipSlot::RightArm => self.right_arm,
            ItemEquipSlot::Body => self.body,
            ItemEquipSlot::Belt => self.belt,
            ItemEquipSlot::Legs => self.legs,
            ItemEquipSlot::Boots => self.boots,
        }
    }

    /// The equipment with `item` worn in `slot` and every other slot as it was.
    pub open spec fn with_slot(self, slot: ItemEquipSlot, item: Option<ItemInstance<'db, S>>) -> Self {
        match slot {
            ItemEquipSlot::Head => Equipment { head: item, ..self },
            ItemEquipSlot::LeftArm => Equipment { left_arm: item, ..self },
            ItemEquipSlot::RightArm => Equipment { right_arm: item, ..self },
            ItemEquipSlot::Body => Equipment { body: item, ..self },
            ItemEquipSlot::Belt => Equipment { belt: item, ..self },
            ItemEquipSlot::Legs => Equipment { legs: item, ..self },
            ItemEquipSlot::Boots => Equipment { boots: item, ..self },
        }
    }

    /// The equipment after equipping `item`: worn in its slot if it can be equipped,
    /// unchanged if not.
    pub open spec fn equipped(self, item: ItemInstance<'db, S>) -> Self {
        match slot_of(item) {
            Some(slot) => self.with_slot(slot, Some(item)),
            None => self,
        }
    }

    /// What equipping `item` answers: the item that was worn in its slot, or
    /// `NotEquipable` for an item that cannot be equipped.
    pub open spec fn equip_outcome(self, item: ItemInstance<'db, S>) -> Result<Option<ItemInstance<'db, S>>, EquipError> {
        match slot_of(item) {
            Some(slot) => Ok(self.slot(slot)),
            None => Err(EquipError::NotEquipable),
        }
    }

    /// The slots in order: head, left arm, right arm, body, belt, legs, boots.
    pub open spec fn worn(self) -> Seq<Option<ItemInstance<'db, S>>> {
        seq![self.head, self.left_arm, self.right_arm, self.body, self.belt, self.legs, self.boots]
    }

    pub fn new() -> (equipment: Self)
        ensures
            equipment.head is None,
            equipment.left_arm is None,
            equipment.right_arm is None,
            equipment.body is None,
            equipment.belt is None,
            equipment.legs is None,
            equipment.boots is None,
    {
        Equipment {
            head: None,
            left_arm: None,
            right_arm: None,
            body: None,
            belt: None,
            legs: None,
            boots: None,
        }
    }

    /// Wears `equipable_item` in its slot and returns the item that was worn there, or
    /// returns `NotEquipable` and changes nothing if the item cannot be equipped.
    pub fn equip(&mut self, equipable_item: ItemInstance<'db, S>) -> (result: Result<Option<ItemInstance<'db, S>>, EquipError>)
        ensures
            result == old(self).equip_outcome(equipable_item),
            *final(self) == old(self).equipped(equipable_item),
    {
        let maybe_slot = match equipable_item.definition.classification {
            ItemClassification::Equippable(slot) => Some(slot),
            _ => None,
        };
        let slot = match maybe_slot {
            Some(slot) => slot,
            None => {
                return Err(EquipError::NotEquipable);
            },
        };
        let mut worn = Some(equipable_item);
        match slot {
            ItemEquipSlot::Head => std::mem::swap(&mut self.head, &mut worn),
            ItemEquipSlot::LeftArm => std::mem::swap(&mut self.left_arm, &mut worn),
            ItemEquipSlot::RightArm => std::mem::swap(&mut self.right_arm, &mut worn),
            ItemEquipSlot::Body => std::mem::swap(&mut self.body, &mut worn),
            ItemEquipSlot::Belt => std::mem::swap(&mut self.belt, &mut worn),
            ItemEquipSlot::Legs => std::mem::swap(&mut self.legs, &mut worn),
            ItemEquipSlot::Boots => std::mem::swap(&mut self.boots, &mut worn),
        }
        Ok(worn)
    }
}

impl<'db, S> Default for Equipment<'db, S> {
    fn default() -> (equipment: Self)
        ensures
            equipment.head is None,
            equipment.left_arm is None,
            equipment.right_arm is None,
            equipment.body is None,
            equipment.belt is None,
            equipment.legs is None,
            equipment.boots is None,
    {
        Equipment::new()
    }
}

/// The stats of the affixes of an item, in order; none for an empty slot.
pub open spec fn item_stats<'db, S>(worn: Option<ItemInstance<'db, S>>) -> Seq<S> {
    match worn {
        Some(item) => item.affixes@.map_values(|affix: crate::affix_generation::AffixInstance<'db, S>| affix.stats),
        None => Seq::empty(),
    }
}

/// The stats of the affixes of the worn items, slot after slot, each item's affixes in order.
pub open spec fn stats_worn<'db, S>(worn: Seq<Option<ItemInstance<'db, S>>>) -> Seq<S>
    decreases worn.len(),
{
    if worn.len() == 0 {
        Seq::empty()
    } else {
        stats_worn(worn.drop_last()) + item_stats(worn.last())
    }
}

/// Each of `copies` is a clone of the value at its place in `values`.
pub open spec fn clones_of<S: Clone>(values: Seq<S>, copies: Seq<S>) -> bool {
    &&& copies.len() == values.len()
    &&& forall|i: int| 0 <= i < copies.len() ==> cloned(values[i], #[trigger] copies[i])
}

/// Appends a clone of the stats of each affix of the item, if any, in order.
fn push_stats<'db, S: Clone>(stats: &mut Vec<S>, worn: &Option<ItemInstance<'db, S>>, Ghost(before): Ghost<Seq<S>>)
    requires
        clones_of(before, old(stats)@),
    ensures
        clones_of(before + item_stats(*worn), final(stats)@),
{
    match worn {
        Some(item) => {
            let ghost start = stats@.len();
            let ghost added = item_stats(*worn);
            let mut j: usize = 0;
            while j < item.affixes.len()
                invariant
                    0 <= j <= item.affixes@.len(),
                    stats@.len() == start + j,
                    start == before.len(),
                    added == item.affixes@.map_values(|affix: crate::affix_generation::AffixInstance<'db, S>| affix.stats),
                    forall|i: int| 0 <= i < start ==> cloned(before[i], #[trigger] stats@[i]),
                    forall|i: int| 0 <= i < j ==> cloned(added[i], #[trigger] stats@[start + i]),
                decreases item.affixes@.len() - j,
            {
                let copy = item.affixes[j].stats.clone();
                stats.push(copy);
                j = j + 1;
            }
            proof {
                let all = before + added;
                assert forall|i: int| 0 <= i < stats@.len() implies cloned(all[i], #[trigger] stats@[i]) by {
                    if i >= start {
                        assert(stats@[start + (i - start)] == stats@[i]);
                    }
                }
            }
        },
        None => {
            assert(before + item_stats(*worn) == before);
        },
    }
}

impl<'db, S: Clone> Equipment<'db, S> {
    /// A clone of the stats of each affix of the worn items, slot after slot.
    pub fn stats(&self) -> (stats: Vec<S>)
        ensures
            clones_of(stats_worn(self.worn()), stats@),
            clones_of(
                item_stats(self.head) + item_stats(self.left_arm) + item_stats(self.right_arm) + item_stats(self.body)
                    + item_stats(self.belt) + item_stats(self.legs) + item_stats(self.boots),
                stats@,
            ),
    {
        proof {
            lemma_stats_cover_every_slot(*self);
        }
        let ghost w = self.worn();
        proof {
            assert forall|k: int| 1 <= k <= 7 implies #[trigger] stats_worn(w.take(k)) == stats_worn(w.take(k - 1)) + item_stats(w[k - 1]) by {
                assert(w.take(k).drop_last() == w.take(k - 1));
            }
            assert(stats_worn(w.take(0)) == Seq::<S>::empty());
            assert(stats_worn(w.take(1)) == Seq::<S>::empty() + item_stats(w[0]));
            assert(stats_worn(w.take(2)) == stats_worn(w.take(1)) + item_stats(w[1]));
            assert(stats_worn(w.take(3)) == stats_worn(w.take(2)) + item_stats(w[2]));
            assert(stats_worn(w.take(4)) == stats_worn(w.take(3)) + item_stats(w[3]));
            assert(stats_worn(w.take(5)) == stats_worn(w.take(4)) + item_stats(w[4]));
            assert(stats_worn(w.take(6)) == stats_worn(w.take(5)) + item_stats(w[5]));
            assert(stats_worn(w.take(7)) == stats_worn(w.take(6)) + item_stats(w[6]));
            assert(w.take(7) == w);
        }
        let mut stats: Vec<S> = Vec::new();
        push_stats(&mut stats, &self.head, Ghost(Seq::empty()));
        push_stats(&mut stats, &self.left_arm, Ghost(stats_worn(w.take(1))));
        push_stats(&mut stats, &self.right_arm, Ghost(stats_worn(w.take(2))));
        push_stats(&mut stats, &self.body, Ghost(stats_worn(w.take(3))));
        push_stats(&mut stats, &self.belt, Ghost(stats_worn(w.take(4))));
        push_stats(&mut stats, &self.legs, Ghost(stats_worn(w.take(5))));
        push_stats(&mut stats, &self.boots, Ghost(stats_worn(w.take(6))));
        stats
    }
}


/// Equipping an item that can be equipped wears it in its slot, answers the item that was
/// worn there, and leaves every other slot as it was.
pub proof fn lemma_equip_wears_item<'db, S>(equipment: Equipment<'db, S>, item: ItemInstance<'db, S>, slot: ItemEquipSlot)
    requires
        slot_of(item) == Some(slot),
    ensures
        equipment.equipped(item).slot(slot) == Some(item),
        equipment.equip_outcome(item) == Ok::<Option<ItemInstance<'db, S>>, EquipError>(equipment.slot(slot)),
        forall|other: ItemEquipSlot| other != slot ==> #[trigger] equipment.equipped(item).slot(other) == equipment.slot(other),
{
}

/// Equipping an item that cannot be equipped is refused and changes nothing.
pub proof fn lemma_refused_item_changes_nothing<'db, S>(equipment: Equipment<'db, S>, item: ItemInstance<'db, S>)
    requires
        slot_of(item) is None,
    ensures
        equipment.equipped(item) == equipment,
        equipment.equip_outcome(item) == Err::<Option<ItemInstance<'db, S>>, EquipError>(EquipError::NotEquipable),
{
}

/// Equipping back the item that an equip answered, when it belongs in the same slot,
/// restores the equipment and answers the item equipped first.
pub proof fn lemma_equipping_back_restores<'db, S>(
    equipment: Equipment<'db, S>,
    item: ItemInstance<'db, S>,
    previous: ItemInstance<'db, S>,
)
    requires
        equipment.equip_outcome(item) == Ok::<Option<ItemInstance<'db, S>>, EquipError>(Some(previous)),
        slot_of(previous) == slot_of(item),
    ensures
        equipment.equipped(item).equipped(previous) == equipment,
        equipment.equipped(item).equip_outcome(previous) == Ok::<Option<ItemInstance<'db, S>>, EquipError>(Some(item)),
{
}

/// The stats of what is worn are those of the head, left arm, right arm, body, belt, legs
/// and boots items, in that order: every slot contributes the stats of the affixes of the
/// item worn there.
pub proof fn lemma_stats_cover_every_slot<'db, S>(equipment: Equipment<'db, S>)
    ensures
        stats_worn(equipment.worn()) == item_stats(equipment.head) + item_stats(equipment.left_arm)
            + item_stats(equipment.right_arm) + item_stats(equipment.body) + item_stats(equipment.belt)
            + item_stats(equipment.legs) + item_stats(equipment.boots),
{
    let w = equipment.worn();
    assert forall|k: int| 1 <= k <= w.len() implies #[trigger] stats_worn(w.take(k)) == stats_worn(w.take(k - 1))
        + item_stats(w[k - 1]) by {
        assert(w.take(k).drop_last() == w.take(k - 1));
    }
    assert(w.len() == 7);
    assert(stats_worn(w.take(0)) == Seq::<S>::empty());
    assert(stats_worn(w.take(1)) == Seq::<S>::empty() + item_stats(equipment.head));
    assert(stats_worn(w.take(2)) == stats_worn(w.take(1)) + item_stats(equipment.left_arm));
    assert(stats_worn(w.take(3)) == stats_worn(w.take(2)) + item_stats(equipment.right_arm));
    assert(stats_worn(w.take(4)) == stats_worn(w.take(3)) + item_stats(equipment.body));
    assert(stats_worn(w.take(5)) == stats_worn(w.take(4)) + item_stats(equipment.belt));
    assert(stats_worn(w.take(6)) == stats_worn(w.take(5)) + item_stats(equipment.legs));
    assert(stats_worn(w.take(7)) == stats_worn(w.take(6)) + item_stats(equipment.boots));
    assert(w.take(7) == w);
    assert(Seq::<S>::empty() + item_stats(equipment.head) == item_stats(equipment.head));
}

/// Equipping follows the item's own classification: an item classified for a slot is worn
/// in that very slot, every other slot keeps its item, and the answer is the item that was
/// worn there; an item classified as invalid or as currency is refused and nothing changes.
pub proof fn lemma_equip_follows_classification<'db, S>(equipment: Equipment<'db, S>, item: ItemInstance<'db, S>)
    ensures
        item.definition.classification == ItemClassification::Equippable(ItemEquipSlot::Head) ==> {
            &&& equipment.equipped(item) == (Equipment { head: Some(item), ..equipment })
            &&& equipment.equip_outcome(item) == Ok::<Option<ItemInstance<'db, S>>, EquipError>(equipment.head)
        },
        item.definition.classification == ItemClassification::Equippable(ItemEquipSlot::LeftArm) ==> {
            &&& equipment.equipped(item) == (Equipment { left_arm: Some(item), ..equipment })
            &&& equipment.equip_outcome(item) == Ok::<Option<ItemInstance<'db, S>>, EquipError>(equipment.left_arm)
        },
        item.definition.classification == ItemClassification::Equippable(ItemEquipSlot::RightArm) ==> {
            &&& equipment.equipped(item) == (Equipment { right_arm: Some(item), ..equipment })
            &&& equipment.equip_outcome(item) == Ok::<Option<ItemInstance<'db, S>>, EquipError>(equipment.right_arm)
        },
        item.definition.classification == ItemClassification::Equippable(ItemEquipSlot::Body) ==> {
            &&& equipment.equipped(item) == (Equipment { body: Some(item), ..equipment })
            &&& equipment.equip_outcome(item) == Ok::<Option<ItemInstance<'db, S>>, EquipError>(equipment.body)
        },
        item.definition.classification == ItemClassification::Equippable(ItemEquipSlot::Belt) ==> {
            &&& equipment.equipped(item) == (Equipment { belt: Some(item), ..equipment })
            &&& equipment.equip_outcome(item) == Ok::<Option<ItemInstance<'db, S>>, EquipError>(equipment.belt)
        },
        item.definition.classification == ItemClassification::Equippable(ItemEquipSlot::Legs) ==> {
            &&& equipment.equipped(item) == (Equipment { legs: Some(item), ..equipment })
            &&& equipment.equip_outcome(item) == Ok::<Option<ItemInstance<'db, S>>, EquipError>(equipment.legs)
        },
        item.definition.classification == ItemClassification::Equippable(ItemEquipSlot::Boots) ==> {
            &&& equipment.equipped(item) == (Equipment { boots: Some(item), ..equipment })
            &&& equipment.equip_outcome(item) == Ok::<Option<ItemInstance<'db, S>>, EquipError>(equipment.boots)
        },
        item.definition.classification == ItemClassification::Invalid || item.definition.classification
            == ItemClassification::Currency ==> {
            &&& equipment.equipped(item) == equipment
            &&& equipment.equip_outcome(item) == Err::<Option<ItemInstance<'db, S>>, EquipError>(EquipError::NotEquipable)
        },
{
}

} // verus!
