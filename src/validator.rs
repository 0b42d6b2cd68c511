//! A framework for checking a block against the fields it may have. Each
//! accessor looks its key up by exact match, marks every field of that key as
//! consumed, reports each occurrence after the first as a duplicate, and checks
//! the value of the first. Absence is not an error. `finish` then reports every
//! field that no accessor consumed.
use vstd::prelude::*;

use crate::block::{lemma_sigs_one, sigs, value_loc, Block, Field, Sig, BV};
use crate::everything::{missing_key, Everything};
use crate::item::Item;
use crate::report::builder::{err, warn};
use crate::report::{ErrorKey, Severity, Sink};
use crate::text::str_eq;
use crate::token::Token;

verus! {

/// The index of the first of `fields[..n]` whose key is `name`.
pub open spec fn first_key(fields: Seq<Field>, name: Seq<char>, n: int) -> Option<int>
    decreases n,
{
    if n <= 0 {
        None
    } else {
        match first_key(fields, name, n - 1) {
            Some(k) => Some(k),
            None => if fields[n - 1].key.s@ == name {
                Some(n - 1)
            } else {
                None
            },
        }
    }
}

/// A duplicate-field Warning for each of `fields[..n]` with key `name` but the first.
pub open spec fn dup_sigs(fields: Seq<Field>, name: Seq<char>, n: int) -> Seq<Sig>
    decreases n,
{
    if n <= 0 {
        seq![]
    } else {
        let r = dup_sigs(fields, name, n - 1);
        if fields[n - 1].key.s@ == name && first_key(fields, name, n - 1) is Some {
            r.push((ErrorKey::DuplicateField, Severity::Warning, fields[n - 1].key.loc))
        } else {
            r
        }
    }
}

/// `used` with every field of key `name` marked.
pub open spec fn mark(used: Seq<bool>, fields: Seq<Field>, name: Seq<char>) -> Seq<bool> {
    Seq::new(used.len(), |j: int| used[j] || fields[j].key.s@ == name)
}

/// `fields` with the keys among `names` marked.
pub open spec fn marks(fields: Seq<Field>, names: Seq<Seq<char>>) -> Seq<bool>
    decreases names.len(),
{
    if names.len() == 0 {
        Seq::new(fields.len(), |j: int| false)
    } else {
        mark(marks(fields, names.drop_last()), fields, names.last())
    }
}

pub proof fn lemma_marks_step(fields: Seq<Field>, names: Seq<Seq<char>>, k: int)
    requires
        0 <= k < names.len(),
    ensures
        marks(fields, names.subrange(0, k + 1)) == mark(marks(fields, names.subrange(0, k)), fields, names[k]),
{
    assert(names.subrange(0, k + 1).drop_last() =~= names.subrange(0, k));
}

/// An unknown-field Error for each of `fields[..n]` not marked in `used`.
pub open spec fn unknown_sigs(fields: Seq<Field>, used: Seq<bool>, n: int) -> Seq<Sig>
    decreases n,
{
    if n <= 0 {
        seq![]
    } else {
        let r = unknown_sigs(fields, used, n - 1);
        if !used[n - 1] {
            r.push((ErrorKey::UnknownField, Severity::Error, fields[n - 1].key.loc))
        } else {
            r
        }
    }
}

/// A malformed-value Error at the value of `f`.
pub open spec fn malformed(f: Field) -> Seq<Sig> {
    seq![(ErrorKey::Validation, Severity::Error, value_loc(f.value))]
}

/// The check of `field_value`: the value must be a token.
pub open spec fn value_sigs(f: Field) -> Seq<Sig> {
    match f.value {
        BV::Value(_) => seq![],
        BV::Block(_) => malformed(f),
    }
}

/// The check of `field_bool`: the value must be `yes` or `no`.
pub open spec fn bool_sigs(f: Field) -> Seq<Sig> {
    match f.value {
        BV::Value(t) => if t.s@ == "yes"@ || t.s@ == "no"@ {
            seq![]
        } else {
            malformed(f)
        },
        BV::Block(_) => malformed(f),
    }
}

/// The check of `field_choice`: the value must be one of `choices`.
pub open spec fn choice_sigs(f: Field, choices: Seq<&str>) -> Seq<Sig> {
    match f.value {
        BV::Value(t) => if exists|i: int| 0 <= i < choices.len() && choices[i]@ == t.s@ {
            seq![]
        } else {
            malformed(f)
        },
        BV::Block(_) => malformed(f),
    }
}

/// The check of `field_item`: the value must name an item of kind `item`.
pub open spec fn item_sigs(f: Field, data: Everything, item: Item) -> Seq<Sig> {
    match f.value {
        BV::Value(t) => if data.has(item, t.s@) {
            seq![]
        } else {
            seq![(missing_key(item), Severity::Error, t.loc)]
        },
        BV::Block(_) => malformed(f),
    }
}

/// The check of `field_block`: the value must be a block.
pub open spec fn block_sigs(f: Field) -> Seq<Sig> {
    match f.value {
        BV::Value(_) => malformed(f),
        BV::Block(_) => seq![],
    }
}

/// The checks of the first field of key `name`, if any, by `check`.
pub open spec fn first_sigs(fields: Seq<Field>, name: Seq<char>, check: spec_fn(Field) -> Seq<Sig>) -> Seq<Sig> {
    match first_key(fields, name, fields.len() as int) {
        Some(k) => check(fields[k]),
        None => seq![],
    }
}

/// Checks the fields of one block.
pub struct Validator<'a> {
    block: &'a Block,
    data: &'a Everything,
    used: Vec<bool>,
}

impl<'a> Validator<'a> {
    pub closed spec fn block(&self) -> &'a Block {
        self.block
    }

    pub closed spec fn data(&self) -> &'a Everything {
        self.data
    }

    /// Which fields have been consumed.
    pub closed spec fn used(&self) -> Seq<bool> {
        self.used@
    }

    pub open spec fn fields(&self) -> Seq<Field> {
        self.block().fields@
    }

    pub closed spec fn wf(&self) -> bool {
        self.used@.len() == self.block.fields@.len()
    }

    /// `after` is this validator with the fields of key `name` consumed.
    pub open spec fn marked(&self, after: Validator<'a>, name: Seq<char>) -> bool {
        after.wf() && after.block() == self.block() && after.data() == self.data() && after.used()
            == mark(self.used(), self.fields(), name)
    }

    /// A validator of `block` with no field consumed.
    pub fn new(block: &'a Block, data: &'a Everything) -> (r: Validator<'a>)
        ensures
            r.wf(),
            r.block() == block,
            r.data() == data,
            r.used() == Seq::new(block.fields@.len(), |j: int| false),
    {
        let mut used: Vec<bool> = Vec::new();
        let mut i: usize = 0;
        while i < block.fields.len()
            invariant
                i <= block.fields@.len(),
                used@ == Seq::new(i as nat, |j: int| false),
            decreases block.fields@.len() - i,
        {
            used.push(false);
            i = i + 1;
            assert(used@ =~= Seq::new(i as nat, |j: int| false));
        }
        Validator { block, data, used }
    }

    /// Consumes the fields of key `name`, reports duplicates, and returns the
    /// index of the first.
    fn field_check(&mut self, name: &str, sink: &mut Sink) -> (r: Option<usize>)
        requires
            old(self).wf(),
        ensures
            old(self).marked(*final(self), name@),
            r matches Some(k) ==> first_key(old(self).fields(), name@, old(self).fields().len() as int)
                == Some(k as int) && k < old(self).fields().len(),
            r is None ==> first_key(old(self).fields(), name@, old(self).fields().len() as int) is None,
            sigs(final(sink)@) == sigs(old(sink)@) + dup_sigs(
                old(self).fields(),
                name@,
                old(self).fields().len() as int,
            ),
    {
        let ghost fields = self.block.fields@;
        let ghost used0 = self.used@;
        let mut first: Option<usize> = None;
        let mut i: usize = 0;
        while i < self.block.fields.len()
            invariant
                self.block == old(self).block,
                self.data == old(self).data,
                fields == self.block.fields@,
                used0 == old(self).used@,
                used0.len() == fields.len(),
                i <= fields.len(),
                self.used@ == Seq::new(
                    used0.len(),
                    |j: int| used0[j] || (j < i && fields[j].key.s@ == name@),
                ),
                first matches Some(k) ==> first_key(fields, name@, i as int) == Some(k as int) && k < i,
                first is None ==> first_key(fields, name@, i as int) is None,
                sigs(sink@) == sigs(old(sink)@) + dup_sigs(fields, name@, i as int),
            decreases fields.len() - i,
        {
            let key = &self.block.fields[i].key;
            if str_eq(key.as_str(), name) {
                self.used.set(i, true);
                if first.is_none() {
                    first = Some(i);
                } else {
                    let ghost before = sink@;
                    warn(ErrorKey::DuplicateField).msg("this field occurs more than once").loc(
                        key.loc,
                    ).push(sink);
                    proof {
                        lemma_sigs_one(before, sink@);
                    }
                }
            }
            i = i + 1;
            proof {
                assert(self.used@ =~= Seq::new(
                    used0.len(),
                    |j: int| used0[j] || (j < i && fields[j].key.s@ == name@),
                ));
            }
        }
        proof {
            assert(self.used@ =~= mark(used0, fields, name@));
        }
        first
    }

    /// Consumes the fields of key `name` and returns the first, whose value the
    /// caller checks.
    pub fn field_any(&mut self, name: &str, sink: &mut Sink) -> (r: Option<&'a Field>)
        requires
            old(self).wf(),
        ensures
            old(self).marked(*final(self), name@),
            sigs(final(sink)@) == sigs(old(sink)@) + dup_sigs(
                old(self).fields(),
                name@,
                old(self).fields().len() as int,
            ),
            r matches Some(f) ==> first_key(old(self).fields(), name@, old(self).fields().len() as int)
                matches Some(k) && *f == old(self).fields()[k],
            r is None ==> first_key(old(self).fields(), name@, old(self).fields().len() as int) is None,
    {
        let block: &'a Block = self.block;
        match self.field_check(name, sink) {
            Some(k) => Some(&block.fields[k]),
            None => None,
        }
    }

    /// Consumes the fields of key `name`; the value of the first must be a token,
    /// which is returned.
    pub fn field_value(&mut self, name: &str, sink: &mut Sink) -> (r: Option<&'a Token>)
        requires
            old(self).wf(),
        ensures
            old(self).marked(*final(self), name@),
            sigs(final(sink)@) == sigs(old(sink)@) + dup_sigs(
                old(self).fields(),
                name@,
                old(self).fields().len() as int,
            ) + first_sigs(old(self).fields(), name@, |f: Field| value_sigs(f)),
            r matches Some(t) ==> first_key(old(self).fields(), name@, old(self).fields().len() as int)
                matches Some(k) && old(self).fields()[k].value == BV::Value(*t),
            r is None ==> !(first_key(old(self).fields(), name@, old(self).fields().len() as int) matches Some(k)
                && old(self).fields()[k].value is Value),
    {
        let block: &'a Block = self.block;
        match self.field_check(name, sink) {
            Some(k) => {
                let f = &block.fields[k];
                match &f.value {
                    BV::Value(t) => {
                        assert(sigs(sink@) =~= sigs(old(sink)@) + dup_sigs(old(self).fields(), name@, old(self).fields().len() as int) + seq![]);
                        Some(t)
                    },
                    BV::Block(b) => {
                        let ghost before = sink@;
                        err(ErrorKey::Validation).msg("expected a value, not a block").loc(b.loc).push(sink);
                        proof {
                            lemma_sigs_one(before, sink@);
                        }
                        None
                    },
                }
            },
            None => {
                assert(sigs(sink@) =~= sigs(old(sink)@) + dup_sigs(old(self).fields(), name@, old(self).fields().len() as int) + seq![]);
                None
            },
        }
    }
    /// Consumes the fields of key `name`; the value of the first must be `yes` or `no`.
    pub fn field_bool(&mut self, name: &str, sink: &mut Sink)
        requires
            old(self).wf(),
        ensures
            old(self).marked(*final(self), name@),
            sigs(final(sink)@) == sigs(old(sink)@) + dup_sigs(
                old(self).fields(),
                name@,
                old(self).fields().len() as int,
            ) + first_sigs(old(self).fields(), name@, |f: Field| bool_sigs(f)),
    {
        let block: &'a Block = self.block;
        let ghost dups = dup_sigs(old(self).fields(), name@, old(self).fields().len() as int);
        if let Some(k) = self.field_check(name, sink) {
            let f = &block.fields[k];
            let ok = match &f.value {
                BV::Value(t) => str_eq(t.as_str(), "yes") || str_eq(t.as_str(), "no"),
                BV::Block(_) => false,
            };
            if !ok {
                let ghost before = sink@;
                err(ErrorKey::Validation).msg("expected yes or no").loc(f.value.loc()).push(sink);
                proof {
                    lemma_sigs_one(before, sink@);
                }
            } else {
                assert(sigs(sink@) =~= sigs(old(sink)@) + dups + seq![]);
            }
        } else {
            assert(sigs(sink@) =~= sigs(old(sink)@) + dups + seq![]);
        }
    }

    /// Consumes the fields of key `name`; the value of the first must be one of `choices`.
    pub fn field_choice(&mut self, name: &str, choices: &[&str], sink: &mut Sink)
        requires
            old(self).wf(),
        ensures
            old(self).marked(*final(self), name@),
            sigs(final(sink)@) == sigs(old(sink)@) + dup_sigs(
                old(self).fields(),
                name@,
                old(self).fields().len() as int,
            ) + first_sigs(old(self).fields(), name@, |f: Field| choice_sigs(f, choices@)),
    {
        let block: &'a Block = self.block;
        let ghost dups = dup_sigs(old(self).fields(), name@, old(self).fields().len() as int);
        if let Some(k) = self.field_check(name, sink) {
            let f = &block.fields[k];
            let ok = match &f.value {
                BV::Value(t) => {
                    let mut found = false;
                    let mut i: usize = 0;
                    while i < choices.len()
                        invariant
                            i <= choices@.len(),
                            found == exists|j: int| 0 <= j < i && choices@[j]@ == t.s@,
                        decreases choices@.len() - i,
                    {
                        if str_eq(choices[i], t.as_str()) {
                            found = true;
                        }
                        i = i + 1;
                    }
                    found
                },
                BV::Block(_) => false,
            };
            if !ok {
                let ghost before = sink@;
                err(ErrorKey::Validation).msg("expected one of the listed choices").loc(f.value.loc()).push(
                    sink,
                );
                proof {
                    lemma_sigs_one(before, sink@);
                }
            } else {
                assert(sigs(sink@) =~= sigs(old(sink)@) + dups + seq![]);
            }
        } else {
            assert(sigs(sink@) =~= sigs(old(sink)@) + dups + seq![]);
        }
    }

    /// Consumes the fields of key `name`; the value of the first must name an
    /// item of kind `item`.
    pub fn field_item(&mut self, name: &str, item: Item, sink: &mut Sink)
        requires
            old(self).wf(),
        ensures
            old(self).marked(*final(self), name@),
            sigs(final(sink)@) == sigs(old(sink)@) + dup_sigs(
                old(self).fields(),
                name@,
                old(self).fields().len() as int,
            ) + first_sigs(old(self).fields(), name@, |f: Field| item_sigs(f, *old(self).data(), item)),
    {
        let block: &'a Block = self.block;
        let data: &'a Everything = self.data;
        let ghost dups = dup_sigs(old(self).fields(), name@, old(self).fields().len() as int);
        if let Some(k) = self.field_check(name, sink) {
            let f = &block.fields[k];
            let ghost before = sink@;
            match &f.value {
                BV::Value(t) => {
                    data.verify_exists(item, t, sink);
                    if data.item_exists(item, t.as_str()) {
                        assert(sigs(sink@) =~= sigs(old(sink)@) + dups + seq![]);
                    } else {
                        proof {
                            lemma_sigs_one(before, sink@);
                        }
                    }
                },
                BV::Block(b) => {
                    err(ErrorKey::Validation).msg("expected an item name, not a block").loc(b.loc).push(sink);
                    proof {
                        lemma_sigs_one(before, sink@);
                    }
                },
            }
        } else {
            assert(sigs(sink@) =~= sigs(old(sink)@) + dups + seq![]);
        }
    }

    /// Consumes the fields of key `name`; the value of the first must be a block,
    /// which is returned for the caller to validate.
    pub fn field_block(&mut self, name: &str, sink: &mut Sink) -> (r: Option<&'a Block>)
        requires
            old(self).wf(),
        ensures
            old(self).marked(*final(self), name@),
            sigs(final(sink)@) == sigs(old(sink)@) + dup_sigs(
                old(self).fields(),
                name@,
                old(self).fields().len() as int,
            ) + first_sigs(old(self).fields(), name@, |f: Field| block_sigs(f)),
            r matches Some(b) ==> first_key(old(self).fields(), name@, old(self).fields().len() as int)
                matches Some(k) && old(self).fields()[k].value == BV::Block(*b),
            r is None ==> !(first_key(old(self).fields(), name@, old(self).fields().len() as int) matches Some(k)
                && old(self).fields()[k].value is Block),
    {
        let block: &'a Block = self.block;
        let ghost dups = dup_sigs(old(self).fields(), name@, old(self).fields().len() as int);
        if let Some(k) = self.field_check(name, sink) {
            let f = &block.fields[k];
            match &f.value {
                BV::Block(b) => {
                    assert(sigs(sink@) =~= sigs(old(sink)@) + dups + seq![]);
                    Some(b)
                },
                BV::Value(t) => {
                    let ghost before = sink@;
                    err(ErrorKey::Validation).msg("expected a block").loc(t.loc).push(sink);
                    proof {
                        lemma_sigs_one(before, sink@);
                    }
                    None
                },
            }
        } else {
            assert(sigs(sink@) =~= sigs(old(sink)@) + dups + seq![]);
            None
        }
    }

    /// Reports each field that no accessor consumed, naming its key.
    pub fn finish(self, sink: &mut Sink)
        requires
            self.wf(),
        ensures
            sigs(final(sink)@) == sigs(old(sink)@) + unknown_sigs(
                self.fields(),
                self.used(),
                self.fields().len() as int,
            ),
    {
        let mut i: usize = 0;
        while i < self.block.fields.len()
            invariant
                self.wf(),
                i <= self.block.fields@.len(),
                sigs(sink@) == sigs(old(sink)@) + unknown_sigs(self.fields(), self.used(), i as int),
            decreases self.block.fields@.len() - i,
        {
            if !self.used[i] {
                let key = &self.block.fields[i].key;
                let text = String::from_str("unknown field ").concat(key.as_str());
                let ghost before = sink@;
                err(ErrorKey::UnknownField).msg(text.as_str()).loc(key.loc).push(sink);
                proof {
                    lemma_sigs_one(before, sink@);
                }
            }
            i = i + 1;
        }
    }
}

} // verus!
