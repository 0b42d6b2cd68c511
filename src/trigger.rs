//! Validation of trigger blocks: boolean predicates over the current scope.
use vstd::prelude::*;

use crate::block::{sigs, Block, Field, Sig, BV};
use crate::context::{ContextView, ScopeContext};
use crate::everything::Everything;
use crate::report::{ErrorKey, Severity, Sink};
use crate::scopes::Scopes;
use crate::tables::triggers::{Trigger, TriggerEntry};
use crate::tables::{in_catalog, lookup_static, static_entry};
use crate::text::{lower_of, lowercase};
use crate::token::Token;
use crate::validator::{bool_sigs, item_sigs, malformed};
use crate::values::{
    check_bool, check_item, check_number, check_scope, check_scope_arg, emit, number_sigs,
    scope_arg_sigs, scope_sigs,
};

verus! {

/// Whether a trigger's description must stay readable in tooltips.
#[derive(Clone, Copy, Debug, PartialEq, Eq, Structural)]
pub enum Tooltipped {
    Yes,
    No,
}

/// What a lowercase trigger name resolves to: its first catalog entry.
pub open spec fn resolve_trigger(cat: Seq<TriggerEntry>, name: Seq<char>) -> Option<(Scopes, Trigger)> {
    if in_catalog(cat, name) {
        Some(static_entry(cat, name))
    } else {
        None
    }
}

/// Resolves a trigger name given in lowercase.
pub fn scope_trigger_lowered(lwname: &str, data: &Everything) -> (r: Option<(Scopes, Trigger)>)
    ensures
        r == resolve_trigger(data.trigger_catalog(), lwname@),
{
    lookup_static(data.triggers(), lwname)
}

/// Resolves the trigger named by `name`, case-insensitively.
pub fn scope_trigger(name: &Token, data: &Everything) -> (r: Option<(Scopes, Trigger)>)
    ensures
        r == resolve_trigger(data.trigger_catalog(), lower_of(name.s@)),
{
    let lwname = lowercase(name.as_str());
    scope_trigger_lowered(lwname.as_str(), data)
}

/// The diagnostics of validating `fields[..n]` as triggers in `ctx`.
pub open spec fn trigger_fields_sigs(data: Everything, ctx: ContextView, fields: Seq<Field>, n: int) -> Seq<
    Sig,
>
    decreases fields, n,
{
    if n <= 0 || n > fields.len() {
        seq![]
    } else {
        trigger_fields_sigs(data, ctx, fields, n - 1) + trigger_field_sigs(data, ctx, fields[n - 1])
    }
}

/// The diagnostics of validating one field as a trigger in `ctx`: an unknown
/// name is a Warning at the key; a known one is checked for scope and then
/// for the shape of its value.
pub open spec fn trigger_field_sigs(data: Everything, ctx: ContextView, f: Field) -> Seq<Sig>
    decreases f, 0int,
{
    match resolve_trigger(data.trigger_catalog(), lower_of(f.key.s@)) {
        None => seq![(ErrorKey::UnknownIdentifier, Severity::Warning, f.key.loc)],
        Some((s, t)) => scope_sigs(s, ctx, f.key.loc) + match t {
            Trigger::Boolean => bool_sigs(f),
            Trigger::CompareValue => number_sigs(f),
            Trigger::Scope(x) => match f.value {
                BV::Block(b) => trigger_fields_sigs(data, ctx.opened(x), b.fields@, b.fields@.len() as int),
                BV::Value(_) => scope_arg_sigs(ctx, f, x),
            },
            Trigger::Item(k) => item_sigs(f, data, k),
            Trigger::Block | Trigger::Tooltip => match f.value {
                BV::Block(b) => trigger_fields_sigs(data, ctx, b.fields@, b.fields@.len() as int),
                BV::Value(_) => malformed(f),
            },
            Trigger::Unchecked => seq![],
        },
    }
}

/// Validates `block` as a block of triggers in the context `sc`.
pub fn validate_trigger(
    block: &Block,
    data: &Everything,
    sc: &ScopeContext,
    tooltipped: Tooltipped,
    sink: &mut Sink,
)
    ensures
        sigs(final(sink)@) == sigs(old(sink)@) + trigger_fields_sigs(
            *data,
            sc@,
            block.fields@,
            block.fields@.len() as int,
        ),
    decreases block, 1int,
{
    let mut i: usize = 0;
    while i < block.fields.len()
        invariant
            i <= block.fields@.len(),
            sigs(sink@) == sigs(old(sink)@) + trigger_fields_sigs(*data, sc@, block.fields@, i as int),
        decreases block.fields@.len() - i,
    {
        proof {
            assert(decreases_to!(block => block.fields));
            assert(decreases_to!(block.fields => block.fields@));
            assert(decreases_to!(block.fields@ => block.fields@[i as int]));
        }
        validate_trigger_field(&block.fields[i], data, sc, tooltipped, sink);
        i = i + 1;
        assert(sigs(sink@) =~= sigs(old(sink)@) + trigger_fields_sigs(*data, sc@, block.fields@, i as int));
    }
}

/// Validates one field of a trigger block. A scope-shaped trigger that
/// opens a block holds triggers about the scope it addresses.
fn validate_trigger_field(
    f: &Field,
    data: &Everything,
    sc: &ScopeContext,
    tooltipped: Tooltipped,
    sink: &mut Sink,
)
    ensures
        sigs(final(sink)@) == sigs(old(sink)@) + trigger_field_sigs(*data, sc@, *f),
    decreases f, 0int,
{
    match scope_trigger(&f.key, data) {
        None => {
            emit(ErrorKey::UnknownIdentifier, Severity::Warning, "unknown trigger", f.key.loc, sink);
            assert(sigs(final(sink)@) =~= sigs(old(sink)@) + trigger_field_sigs(*data, sc@, *f));
        },
        Some((s, t)) => {
            check_scope(&s, sc, &f.key, sink);
            let ghost mid = sink@;
            match t {
                Trigger::Boolean => check_bool(f, sink),
                Trigger::CompareValue => check_number(f, sink),
                Trigger::Scope(x) => match &f.value {
                    BV::Block(b) => {
                        proof {
                            assert(decreases_to!(f => f.value));
                        }
                        let inner = sc.open_scope(x);
                        validate_trigger(b, data, &inner, tooltipped, sink);
                    },
                    BV::Value(_) => check_scope_arg(sc, f, &x, sink),
                },
                Trigger::Item(k) => check_item(f, data, k, sink),
                Trigger::Block | Trigger::Tooltip => match &f.value {
                    BV::Block(b) => {
                        let inner = match t {
                            Trigger::Tooltip => Tooltipped::No,
                            _ => tooltipped,
                        };
                        proof {
                            assert(decreases_to!(f => f.value));
                        }
                        validate_trigger(b, data, sc, inner, sink);
                    },
                    BV::Value(_) => {
                        emit(ErrorKey::Validation, Severity::Error, "expected a block of triggers", f.value.loc(), sink);
                        assert(sigs(sink@) =~= sigs(mid) + malformed(*f));
                    },
                },
                Trigger::Unchecked => {
                    assert(sigs(sink@) =~= sigs(mid) + seq![]);
                },
            }
            assert(sigs(final(sink)@) =~= sigs(old(sink)@) + trigger_field_sigs(*data, sc@, *f));
        },
    }
}

} // verus!
