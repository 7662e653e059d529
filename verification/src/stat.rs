//! The stats a character can possess.

use vstd::prelude::*;

verus! {

/// Stats are any numeric value a player can possess.
#[derive(Clone, Copy, Debug, Hash, PartialEq, Eq, Structural)]
pub enum Stat {
    Resolve,
    Finesse,
    Complexity,
    MoveSpeed,
    Health,
    Energy,
}

} // verus!
