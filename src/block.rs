//! Parsed script blocks: ordered fields, each a key and a value that is a
//! token or a nested block.
use vstd::prelude::*;

use crate::report::{ErrorKey, LogReport, Severity};
use crate::token::{Loc, Token};

verus! {

/// A field's value.
#[derive(Debug)]
pub enum BV {
    Value(Token),
    Block(Block),
}

/// `key = value`.
#[derive(Debug)]
pub struct Field {
    pub key: Token,
    pub value: BV,
}

/// A block: its fields in source order, and where it opens.
#[derive(Debug)]
pub struct Block {
    pub fields: Vec<Field>,
    pub loc: Loc,
}

/// Where a value stands: the token, or the opening of the block.
pub open spec fn value_loc(v: BV) -> Loc {
    match v {
        BV::Value(t) => t.loc,
        BV::Block(b) => b.loc,
    }
}

/// What a diagnostic amounts to for the contracts: its key, its severity,
/// and where its first pointer is.
pub type Sig = (ErrorKey, Severity, Loc);

pub open spec fn sig_of(r: LogReport) -> Sig {
    (r.key, r.severity, r@.pointers[0].location)
}

/// The signatures of a sequence of diagnostics.
pub open spec fn sigs(s: Seq<LogReport>) -> Seq<Sig> {
    s.map_values(|r: LogReport| sig_of(r))
}

pub proof fn lemma_sigs_push(s: Seq<LogReport>, r: LogReport)
    ensures
        sigs(s.push(r)) == sigs(s).push(sig_of(r)),
{
    assert(sigs(s.push(r)) =~= sigs(s).push(sig_of(r)));
}

/// A sequence that was extended by one report has that report's signature added.
pub proof fn lemma_sigs_one(before: Seq<LogReport>, after: Seq<LogReport>)
    requires
        after.len() == before.len() + 1,
        after.drop_last() == before,
    ensures
        sigs(after) == sigs(before).push(sig_of(after.last())),
{
    assert(after =~= before.push(after.last()));
    lemma_sigs_push(before, after.last());
}

impl BV {
    /// Where the value stands.
    pub fn loc(&self) -> (r: Loc)
        ensures
            r == value_loc(*self),
    {
        match self {
            BV::Value(t) => t.loc,
            BV::Block(b) => b.loc,
        }
    }
}

impl Block {
    pub fn new(loc: Loc) -> (r: Block)
        ensures
            r.fields@.len() == 0,
            r.loc == loc,
    {
        Block { fields: Vec::new(), loc }
    }

    /// Appends `key = value`.
    pub fn add_value(&mut self, key: Token, value: Token)
        ensures
            final(self).loc == old(self).loc,
            final(self).fields@ == old(self).fields@.push(Field { key, value: BV::Value(value) }),
    {
        self.fields.push(Field { key, value: BV::Value(value) });
    }

    /// Appends `key = { ... }`.
    pub fn add_block(&mut self, key: Token, value: Block)
        ensures
            final(self).loc == old(self).loc,
            final(self).fields@ == old(self).fields@.push(Field { key, value: BV::Block(value) }),
    {
        self.fields.push(Field { key, value: BV::Block(value) });
    }
}

} // verus!
