//! The registries of declared items, and the catalogs, that validation reads.
use vstd::prelude::*;

use crate::item::Item;
use crate::report::builder::err;
use crate::report::{ErrorKey, LogReport, Severity, Sink};
use crate::tables::effects::{effect_table, EffectEntry};
use crate::tables::triggers::{trigger_table, TriggerEntry};
use crate::text::str_eq;
use crate::token::{Loc, Token};

verus! {

/// Whether `r` is an Error of kind `key` with a single pointer, at `loc`.
pub open spec fn is_report_at(r: LogReport, key: ErrorKey, severity: Severity, loc: Loc) -> bool {
    r.key == key && r.severity == severity && r@.pointers.len() == 1 && r@.pointers[0].location == loc
}

/// `after` is `before` with one more report, which satisfies `is_report_at`.
pub open spec fn one_report(
    before: Seq<LogReport>,
    after: Seq<LogReport>,
    key: ErrorKey,
    severity: Severity,
    loc: Loc,
) -> bool {
    after.len() == before.len() + 1 && after.drop_last() == before && is_report_at(
        after.last(),
        key,
        severity,
        loc,
    )
}

/// The diagnostic for an absent item: nothing if `present`, else one Error.
pub open spec fn missing_reported(
    before: Seq<LogReport>,
    after: Seq<LogReport>,
    present: bool,
    key: ErrorKey,
    loc: Loc,
) -> bool {
    if present {
        after == before
    } else {
        one_report(before, after, key, Severity::Error, loc)
    }
}

/// The key of the diagnostic for an absent item of `item`.
pub open spec fn missing_key(item: Item) -> ErrorKey {
    if item == Item::Localization {
        ErrorKey::MissingLocalization
    } else {
        ErrorKey::MissingItem
    }
}

/// Everything that validation consults: item registries and the catalogs.
pub struct Everything {
    items: Vec<(Item, String)>,
    effects: Vec<EffectEntry>,
    triggers: Vec<TriggerEntry>,
}

impl Everything {
    /// Whether the registry of `item` holds `name`.
    pub closed spec fn has(&self, item: Item, name: Seq<char>) -> bool {
        exists|i: int| 0 <= i < self.items@.len() && self.items@[i].0 == item && self.items@[i].1@ == name
    }

    /// The effect catalog.
    pub closed spec fn effect_catalog(&self) -> Seq<EffectEntry> {
        self.effects@
    }

    /// The trigger catalog.
    pub closed spec fn trigger_catalog(&self) -> Seq<TriggerEntry> {
        self.triggers@
    }

    /// The effect catalog.
    pub fn effects(&self) -> (r: &Vec<EffectEntry>)
        ensures
            r@ == self.effect_catalog(),
    {
        &self.effects
    }

    /// The trigger catalog.
    pub fn triggers(&self) -> (r: &Vec<TriggerEntry>)
        ensures
            r@ == self.trigger_catalog(),
    {
        &self.triggers
    }

    /// Empty registries, with the built-in catalogs.
    pub fn new() -> (r: Everything)
        ensures
            forall|item: Item, name: Seq<char>| !r.has(item, name),
    {
        Everything { items: Vec::new(), effects: effect_table(), triggers: trigger_table() }
    }

    /// Empty registries, with the given catalogs.
    pub fn with_catalogs(effects: Vec<EffectEntry>, triggers: Vec<TriggerEntry>) -> (r: Everything)
        ensures
            forall|item: Item, name: Seq<char>| !r.has(item, name),
            r.effect_catalog() == effects@,
            r.trigger_catalog() == triggers@,
    {
        Everything { items: Vec::new(), effects, triggers }
    }

    /// Declares `name` in the registry of `item`.
    pub fn add_item(&mut self, item: Item, name: &str)
        ensures
            forall|k: Item, n: Seq<char>|
                final(self).has(k, n) == (old(self).has(k, n) || (k == item && n == name@)),
            final(self).effect_catalog() == old(self).effect_catalog(),
            final(self).trigger_catalog() == old(self).trigger_catalog(),
    {
        let ghost before = self.items@;
        self.items.push((item, String::from_str(name)));
        proof {
            assert forall|k: Item, n: Seq<char>|
                final(self).has(k, n) == (old(self).has(k, n) || (k == item && n == name@)) by {
                if old(self).has(k, n) {
                    let i = choose|i: int|
                        0 <= i < before.len() && before[i].0 == k && before[i].1@ == n;
                    assert(self.items@[i] == before[i]);
                }
                if final(self).has(k, n) && !(k == item && n == name@) {
                    let i = choose|i: int|
                        0 <= i < self.items@.len() && self.items@[i].0 == k && self.items@[i].1@ == n;
                    assert(i < before.len());
                    assert(before[i] == self.items@[i]);
                }
                if k == item && n == name@ {
                    assert(self.items@[before.len() as int].0 == k);
                }
            }
        }
    }

    /// Whether the registry of `item` holds `name`.
    pub fn item_exists(&self, item: Item, name: &str) -> (r: bool)
        ensures
            r == self.has(item, name@),
    {
        let mut i: usize = 0;
        while i < self.items.len()
            invariant
                i <= self.items@.len(),
                forall|j: int| 0 <= j < i ==> !(self.items@[j].0 == item && self.items@[j].1@ == name@),
            decreases self.items@.len() - i,
        {
            if self.items[i].0 == item && str_eq(self.items[i].1.as_str(), name) {
                return true;
            }
            i = i + 1;
        }
        false
    }

    /// Reports an Error at `token` unless the registry of `item` holds the
    /// token's text.
    pub fn verify_exists(&self, item: Item, token: &Token, sink: &mut Sink)
        ensures
            missing_reported(old(sink)@, final(sink)@, self.has(item, token.s@), missing_key(item), token.loc),
    {
        self.verify_exists_implied(item, token.as_str(), token, sink);
    }

    /// Reports an Error at `token` unless the registry of `item` holds `key`,
    /// a name that the token implies.
    pub fn verify_exists_implied(&self, item: Item, key: &str, token: &Token, sink: &mut Sink)
        ensures
            missing_reported(old(sink)@, final(sink)@, self.has(item, key@), missing_key(item), token.loc),
    {
        if !self.item_exists(item, key) {
            let k = if item == Item::Localization {
                ErrorKey::MissingLocalization
            } else {
                ErrorKey::MissingItem
            };
            let text = String::from_str("no item of this kind has the name ").concat(key);
            err(k).msg(text.as_str()).loc(token.loc).push(sink);
        }
    }
}

} // verus!
