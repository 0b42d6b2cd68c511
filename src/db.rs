//! The database of loaded items, each kept with its key, its block, and the
//! kind of item it is, which decides how it is validated.
use vstd::prelude::*;

use crate::block::{sigs, Block, Sig};
use crate::everything::Everything;
use crate::imperator::data::ambitions::{ambition_sigs, Ambition};
use crate::imperator::data::ideas::{idea_sigs, Ideas};
use crate::imperator::data::legion_distinctions::{distinction_sigs, LegionDistinctions};
use crate::item::Item;
use crate::report::Sink;
use crate::token::Token;

verus! {

/// How an item of the database is validated.
#[derive(Clone, Copy, Debug, PartialEq, Eq, Structural)]
pub enum DbKind {
    Ambition,
    Ideas,
    LegionDistinctions,
}

/// One loaded item.
#[derive(Debug)]
pub struct DbEntry {
    pub item: Item,
    pub key: Token,
    pub block: Block,
    pub kind: DbKind,
}

/// The diagnostics of validating one item according to its kind.
pub open spec fn entry_sigs(data: Everything, e: DbEntry) -> Seq<Sig> {
    match e.kind {
        DbKind::Ambition => ambition_sigs(data, e.key, e.block),
        DbKind::Ideas => idea_sigs(data, e.key, e.block),
        DbKind::LegionDistinctions => distinction_sigs(data, e.key, e.block),
    }
}

/// The diagnostics of validating `entries[..n]` in order.
pub open spec fn db_sigs(data: Everything, entries: Seq<DbEntry>, n: int) -> Seq<Sig>
    decreases n,
{
    if n <= 0 || n > entries.len() {
        seq![]
    } else {
        db_sigs(data, entries, n - 1) + entry_sigs(data, entries[n - 1])
    }
}

/// The loaded items, in the order they were added.
#[derive(Debug)]
pub struct Db {
    entries: Vec<DbEntry>,
}

impl View for Db {
    type V = Seq<DbEntry>;

    closed spec fn view(&self) -> Seq<DbEntry> {
        self.entries@
    }
}

impl Db {
    pub fn new() -> (r: Db)
        ensures
            r@ == Seq::<DbEntry>::empty(),
    {
        Db { entries: Vec::new() }
    }

    /// Adds an item of kind `item` under `key`.
    pub fn add(&mut self, item: Item, key: Token, block: Block, kind: DbKind)
        ensures
            final(self)@ == old(self)@.push(DbEntry { item, key, block, kind }),
    {
        self.entries.push(DbEntry { item, key, block, kind });
    }

    /// The number of items.
    pub fn len(&self) -> (r: usize)
        ensures
            r == self@.len(),
    {
        self.entries.len()
    }

    /// The item at `i`.
    pub fn get(&self, i: usize) -> (r: &DbEntry)
        requires
            i < self@.len(),
        ensures
            *r == self@[i as int],
    {
        &self.entries[i]
    }

    /// Validates every item, in the order they were added.
    pub fn validate_all(&self, data: &Everything, sink: &mut Sink)
        ensures
            sigs(final(sink)@) == sigs(old(sink)@) + db_sigs(*data, self@, self@.len() as int),
    {
        let mut i: usize = 0;
        while i < self.entries.len()
            invariant
                i <= self.entries@.len(),
                sigs(sink@) == sigs(old(sink)@) + db_sigs(*data, self@, i as int),
            decreases self.entries@.len() - i,
        {
            let e = &self.entries[i];
            match e.kind {
                DbKind::Ambition => Ambition {}.validate(&e.key, &e.block, data, sink),
                DbKind::Ideas => Ideas {}.validate(&e.key, &e.block, data, sink),
                DbKind::LegionDistinctions => LegionDistinctions {}.validate(&e.key, &e.block, data, sink),
            }
            i = i + 1;
            assert(sigs(sink@) =~= sigs(old(sink)@) + db_sigs(*data, self@, i as int));
        }
    }
}

} // verus!
