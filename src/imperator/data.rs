//! Item kinds, each with how it is added to the database and validated, and
//! the checks they share.
use vstd::prelude::*;

use crate::block::{lemma_sigs_one, sigs, Field, Sig, BV};
use crate::context::{ContextView, ScopeContext};
use crate::everything::Everything;
use crate::item::Item;
use crate::report::{ErrorKey, Severity, Sink};
use crate::token::Token;
use crate::trigger::{trigger_fields_sigs, validate_trigger, Tooltipped};
use crate::validator::{block_sigs, dup_sigs, first_key, first_sigs, Validator};

pub mod ambitions;
pub mod ideas;
pub mod legion_distinctions;

verus! {

/// The diagnostics of the localization an item needs: its key, and the
/// key `implied` that is derived from it, both reported at the key.
pub open spec fn localization_sigs(data: Everything, key: Token, implied: Seq<char>) -> Seq<Sig> {
    (if data.has(Item::Localization, key.s@) {
        seq![]
    } else {
        seq![(ErrorKey::MissingLocalization, Severity::Error, key.loc)]
    }) + (if data.has(Item::Localization, implied) {
        seq![]
    } else {
        seq![(ErrorKey::MissingLocalization, Severity::Error, key.loc)]
    })
}

/// Checks the localization an item needs.
pub fn check_localization(data: &Everything, key: &Token, implied: &str, sink: &mut Sink)
    ensures
        sigs(final(sink)@) == sigs(old(sink)@) + localization_sigs(*data, *key, implied@),
{
    let ghost s0 = sink@;
    data.verify_exists(Item::Localization, key, sink);
    let ghost s1 = sink@;
    if !data.item_exists(Item::Localization, key.as_str()) {
        proof {
            lemma_sigs_one(s0, s1);
        }
    }
    data.verify_exists_implied(Item::Localization, implied, key, sink);
    if !data.item_exists(Item::Localization, implied) {
        proof {
            lemma_sigs_one(s1, sink@);
        }
    }
    assert(sigs(final(sink)@) =~= sigs(old(sink)@) + localization_sigs(*data, *key, implied@));
}

/// The diagnostics of the fields of key `name`, whose first value is a block
/// of triggers validated in `ctx`.
pub open spec fn trigger_block_sigs(data: Everything, ctx: ContextView, fields: Seq<Field>, name: Seq<char>) -> Seq<
    Sig,
> {
    dup_sigs(fields, name, fields.len() as int) + first_sigs(fields, name, |f: Field| block_sigs(f))
        + match first_key(fields, name, fields.len() as int) {
        Some(k) => match fields[k].value {
            BV::Block(b) => trigger_fields_sigs(data, ctx, b.fields@, b.fields@.len() as int),
            BV::Value(_) => seq![],
        },
        None => seq![],
    }
}

/// Consumes the fields of key `name` and validates the first, a block of
/// triggers, in `sc`.
pub fn field_trigger<'a>(
    vd: &mut Validator<'a>,
    name: &str,
    data: &Everything,
    sc: &ScopeContext,
    tooltipped: Tooltipped,
    sink: &mut Sink,
)
    requires
        old(vd).wf(),
    ensures
        old(vd).marked(*final(vd), name@),
        sigs(final(sink)@) == sigs(old(sink)@) + trigger_block_sigs(*data, sc@, old(vd).fields(), name@),
{
    let ghost fields = vd.fields();
    if let Some(b) = vd.field_block(name, sink) {
        validate_trigger(b, data, sc, tooltipped, sink);
    } else {
        let ghost k = first_key(fields, name@, fields.len() as int);
        assert(!(k matches Some(j) && fields[j].value is Block));
    }
    assert(sigs(final(sink)@) =~= sigs(old(sink)@) + trigger_block_sigs(*data, sc@, fields, name@));
}

} // verus!
