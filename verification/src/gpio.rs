//! Pin-level decisions: how a read or set logic level answers the
//! capability-typed pin queries.
//!
//! Reading or driving the physical pin is outside work; these functions take
//! or produce the plain logic level it reports.

use vstd::prelude::*;

verus! {

/// A pin's logic level.
#[derive(Clone, Copy, Debug, PartialEq, Eq, Structural)]
pub enum Level {
    Low,
    High,
}

/// Whether a pin reading the given level answers "high".
pub fn level_is_high(level: Level) -> (r: bool)
    ensures
        r == (level is High),
{
    match level {
        Level::High => true,
        Level::Low => false,
    }
}

/// Whether a pin reading the given level answers "low".
pub fn level_is_low(level: Level) -> (r: bool)
    ensures
        r == (level is Low),
{
    match level {
        Level::High => false,
        Level::Low => true,
    }
}

/// The level an output pin drives after a toggle.
pub fn toggled(level: Level) -> (r: Level)
    ensures
        level is High ==> r is Low,
        level is Low ==> r is High,
{
    match level {
        Level::High => Level::Low,
        Level::Low => Level::High,
    }
}

} // verus!
