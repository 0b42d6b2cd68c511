//! The trigger catalog: each entry gives the scopes a trigger needs, its name,
//! and the shape of its argument.
use vstd::prelude::*;

use crate::item::Item;
use crate::scopes::{Scopes, ALL_BUT_NONE, CHARACTER, COUNTRY, NONE};

verus! {

/// The shape of a trigger's argument.
#[derive(Copy, Clone, Debug, Eq, PartialEq)]
pub enum Trigger {
    /// `yes` or `no`.
    Boolean,
    /// A number, or a named value.
    CompareValue,
    /// A scope expression that must address the given scopes.
    Scope(Scopes),
    /// The name of an item of the given kind.
    Item(Item),
    /// A block of triggers, in the same scope (`and`, `or`, `not`, ...).
    Block,
    /// A block of triggers whose description replaces theirs in tooltips.
    Tooltip,
    /// Any argument is accepted.
    Unchecked,
}

/// A catalog entry: the bits of the scopes required, the lowercase name, the shape.
pub type TriggerEntry = (u64, &'static str, Trigger);

/// The built-in trigger catalog.
pub fn trigger_table() -> (r: Vec<TriggerEntry>) {
    vec![
        (CHARACTER, "age", Trigger::CompareValue),
        (ALL_BUT_NONE, "always", Trigger::Boolean),
        (NONE, "and", Trigger::Block),
        (NONE, "custom_description", Trigger::Tooltip),
        (NONE, "custom_tooltip", Trigger::Tooltip),
        (CHARACTER, "gold", Trigger::CompareValue),
        (COUNTRY, "has_law", Trigger::Item(Item::Law)),
        (CHARACTER, "has_trait", Trigger::Item(Item::Trait)),
        (CHARACTER, "is_alive", Trigger::Boolean),
        (CHARACTER, "is_married", Trigger::Boolean),
        (CHARACTER, "is_spouse_of", Trigger::Scope(Scopes::from_bits_truncate(CHARACTER))),
        (NONE, "nand", Trigger::Block),
        (NONE, "nor", Trigger::Block),
        (NONE, "not", Trigger::Block),
        (NONE, "or", Trigger::Block),
    ]
}

} // verus!
