//! Game logic of an action role-playing game: dungeon tiles and how they fit together, the
//! layout of generated dungeons, and the item system: affixes, affix pools, item
//! definitions, loot pools, the random generation of items from them, and equipment.

pub mod tile;
pub mod random;
pub mod dungeon;
pub mod wave_function_collapse;
pub mod stat;
pub mod data;
pub mod affix;
pub mod affix_generation;
pub mod affix_pool;
pub mod item;
pub mod item_generation;
pub mod item_rolling;
pub mod loot_pool;
pub mod equipment;
pub mod loading;
pub mod simulation;
pub mod table_display;
pub mod editing;
