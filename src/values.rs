//! Checks of a field's value against the shape its construct expects, shared
//! by the trigger and effect validators.
use vstd::prelude::*;

use crate::block::{lemma_sigs_one, sigs, value_loc, Field, Sig, BV};
use crate::context::{lookup, ContextView, ScopeContext};
use crate::everything::Everything;
use crate::item::Item;
use crate::report::builder::report;
use crate::report::{ErrorKey, Severity, Sink};
use crate::scopes::{Scopes, ALL_BUT_NONE};
use crate::text::{is_integer, is_integer_literal, is_number, is_number_literal, str_eq, strip_front, strip_prefix};
use crate::token::{Loc, Token};
use crate::validator::{bool_sigs, item_sigs, malformed};

verus! {

/// Appends a diagnostic with one pointer, at `loc`.
pub(crate) fn emit(key: ErrorKey, severity: Severity, msg: &str, loc: Loc, sink: &mut Sink)
    ensures
        sigs(final(sink)@) == sigs(old(sink)@).push((key, severity, loc)),
{
    report(key, severity).msg(msg).loc(loc).push(sink);
    proof {
        lemma_sigs_one(old(sink)@, final(sink)@);
    }
}

/// A scope-mismatch Warning at `loc` when a construct that needs `required`
/// (not scopeless) stands where `ctx` addresses nothing of it.
pub open spec fn scope_sigs(required: Scopes, ctx: ContextView, loc: Loc) -> Seq<Sig> {
    if required@ != Set::<nat>::empty() && required@.intersect(ctx.this@) == Set::<nat>::empty() {
        seq![(ErrorKey::Scopes, Severity::Warning, loc)]
    } else {
        seq![]
    }
}

/// What a scope expression addresses: `this`, `root`, `prev`, or
/// `scope:<name>`; a name that was never saved may address anything. Other
/// text is no scope expression.
pub open spec fn scope_value(ctx: ContextView, v: Seq<char>) -> Option<Scopes> {
    if v == "this"@ {
        Some(ctx.this)
    } else if v == "root"@ {
        Some(ctx.root)
    } else if v == "prev"@ {
        Some(ctx.prev)
    } else if strip_front(v, "scope:"@) is Some {
        match lookup(ctx.names, strip_front(v, "scope:"@)->0) {
            Some(s) => Some(s),
            None => Some(Scopes::spec_from_bits_truncate(ALL_BUT_NONE)),
        }
    } else {
        None
    }
}

/// The check of a value that must be a scope expression addressing `expected`.
pub open spec fn scope_arg_sigs(ctx: ContextView, f: Field, expected: Scopes) -> Seq<Sig> {
    match f.value {
        BV::Value(t) => match scope_value(ctx, t.s@) {
            None => malformed(f),
            Some(s) => if s@.intersect(expected@) == Set::<nat>::empty() {
                seq![(ErrorKey::Scopes, Severity::Warning, t.loc)]
            } else {
                seq![]
            },
        },
        BV::Block(_) => malformed(f),
    }
}

/// The check of a value that must be a number.
pub open spec fn number_sigs(f: Field) -> Seq<Sig> {
    match f.value {
        BV::Value(t) => if is_number_literal(t.s@) {
            seq![]
        } else {
            malformed(f)
        },
        BV::Block(_) => malformed(f),
    }
}

/// The check of a value that must be a whole number.
pub open spec fn integer_sigs(f: Field) -> Seq<Sig> {
    match f.value {
        BV::Value(t) => if is_integer_literal(t.s@) {
            seq![]
        } else {
            malformed(f)
        },
        BV::Block(_) => malformed(f),
    }
}

/// The check of a value that must be `yes`.
pub open spec fn yes_sigs(f: Field) -> Seq<Sig> {
    match f.value {
        BV::Value(t) => if t.s@ == "yes"@ {
            seq![]
        } else {
            malformed(f)
        },
        BV::Block(_) => malformed(f),
    }
}

/// The check of a value that must not be negative: a negative number is
/// reported; named values and script math blocks are accepted.
pub open spec fn nonnegative_sigs(f: Field) -> Seq<Sig> {
    match f.value {
        BV::Value(t) => if is_number_literal(t.s@) && t.s@[0] == '-' {
            seq![(ErrorKey::Validation, Severity::Warning, t.loc)]
        } else {
            seq![]
        },
        BV::Block(_) => seq![],
    }
}

/// The check of a value that must be `male`, `female` or `random`.
pub open spec fn gender_sigs(f: Field) -> Seq<Sig> {
    match f.value {
        BV::Value(t) => if t.s@ == "male"@ || t.s@ == "female"@ || t.s@ == "random"@ {
            seq![]
        } else {
            malformed(f)
        },
        BV::Block(_) => malformed(f),
    }
}

/// Reports a malformed value at the value of `f`.
pub(crate) fn report_malformed(f: &Field, msg: &str, sink: &mut Sink)
    ensures
        sigs(final(sink)@) == sigs(old(sink)@) + malformed(*f),
{
    emit(ErrorKey::Validation, Severity::Error, msg, f.value.loc(), sink);
    assert(sigs(old(sink)@).push((ErrorKey::Validation, Severity::Error, value_loc(f.value))) =~= sigs(
        old(sink)@,
    ) + malformed(*f));
}

/// What the scope expression `v` addresses in `sc`.
pub fn resolve_scope_value(sc: &ScopeContext, v: &str) -> (r: Option<Scopes>)
    ensures
        r == scope_value(sc@, v@),
{
    if str_eq(v, "this") {
        Some(sc.this())
    } else if str_eq(v, "root") {
        Some(sc.root())
    } else if str_eq(v, "prev") {
        Some(sc.prev())
    } else if let Some(name) = strip_prefix(v, "scope:") {
        match sc.named(name) {
            Some(s) => Some(s),
            None => Some(Scopes::from_bits_truncate(ALL_BUT_NONE)),
        }
    } else {
        None
    }
}

/// Reports a construct that needs `required` where `sc` addresses none of it.
pub fn check_scope(required: &Scopes, sc: &ScopeContext, key: &Token, sink: &mut Sink)
    ensures
        sigs(final(sink)@) == sigs(old(sink)@) + scope_sigs(*required, sc@, key.loc),
{
    let this = sc.this();
    if !required.is_empty() && !required.compatible(&this) {
        emit(ErrorKey::Scopes, Severity::Warning, "this construct does not apply to the current scope", key.loc, sink);
        assert(sigs(final(sink)@) =~= sigs(old(sink)@) + scope_sigs(*required, sc@, key.loc));
    } else {
        assert(sigs(final(sink)@) =~= sigs(old(sink)@) + scope_sigs(*required, sc@, key.loc));
    }
}

/// Checks a value that must be a scope expression addressing `expected`.
pub fn check_scope_arg(sc: &ScopeContext, f: &Field, expected: &Scopes, sink: &mut Sink)
    ensures
        sigs(final(sink)@) == sigs(old(sink)@) + scope_arg_sigs(sc@, *f, *expected),
{
    match &f.value {
        BV::Value(t) => match resolve_scope_value(sc, t.as_str()) {
            None => report_malformed(f, "expected a scope expression", sink),
            Some(s) => {
                if !s.compatible(expected) {
                    emit(ErrorKey::Scopes, Severity::Warning, "this scope is of the wrong kind", t.loc, sink);
                }
                assert(sigs(final(sink)@) =~= sigs(old(sink)@) + scope_arg_sigs(sc@, *f, *expected));
            },
        },
        BV::Block(_) => report_malformed(f, "expected a scope expression, not a block", sink),
    }
}

/// Checks a value that must be a number.
pub fn check_number(f: &Field, sink: &mut Sink)
    ensures
        sigs(final(sink)@) == sigs(old(sink)@) + number_sigs(*f),
{
    match &f.value {
        BV::Value(t) => {
            if !is_number(t.as_str()) {
                report_malformed(f, "expected a number", sink);
            } else {
                assert(sigs(final(sink)@) =~= sigs(old(sink)@) + number_sigs(*f));
            }
        },
        BV::Block(_) => report_malformed(f, "expected a number, not a block", sink),
    }
}

/// Checks a value that must be a whole number.
pub fn check_integer(f: &Field, sink: &mut Sink)
    ensures
        sigs(final(sink)@) == sigs(old(sink)@) + integer_sigs(*f),
{
    match &f.value {
        BV::Value(t) => {
            if !is_integer(t.as_str()) {
                report_malformed(f, "expected a whole number", sink);
            } else {
                assert(sigs(final(sink)@) =~= sigs(old(sink)@) + integer_sigs(*f));
            }
        },
        BV::Block(_) => report_malformed(f, "expected a whole number, not a block", sink),
    }
}

/// Checks a value that must be `yes`.
pub fn check_yes(f: &Field, sink: &mut Sink)
    ensures
        sigs(final(sink)@) == sigs(old(sink)@) + yes_sigs(*f),
{
    match &f.value {
        BV::Value(t) => {
            if !str_eq(t.as_str(), "yes") {
                report_malformed(f, "expected yes", sink);
            } else {
                assert(sigs(final(sink)@) =~= sigs(old(sink)@) + yes_sigs(*f));
            }
        },
        BV::Block(_) => report_malformed(f, "expected yes, not a block", sink),
    }
}

/// Checks a value that must be `yes` or `no`.
pub fn check_bool(f: &Field, sink: &mut Sink)
    ensures
        sigs(final(sink)@) == sigs(old(sink)@) + bool_sigs(*f),
{
    match &f.value {
        BV::Value(t) => {
            if !(str_eq(t.as_str(), "yes") || str_eq(t.as_str(), "no")) {
                report_malformed(f, "expected yes or no", sink);
            } else {
                assert(sigs(final(sink)@) =~= sigs(old(sink)@) + bool_sigs(*f));
            }
        },
        BV::Block(_) => report_malformed(f, "expected yes or no, not a block", sink),
    }
}

/// Checks a value that must not be a negative number.
pub fn check_nonnegative(f: &Field, sink: &mut Sink)
    ensures
        sigs(final(sink)@) == sigs(old(sink)@) + nonnegative_sigs(*f),
{
    if let BV::Value(t) = &f.value {
        if is_number(t.as_str()) && t.as_str().get_char(0) == '-' {
            emit(ErrorKey::Validation, Severity::Warning, "expected a value that is not negative", t.loc, sink);
        }
    }
    assert(sigs(final(sink)@) =~= sigs(old(sink)@) + nonnegative_sigs(*f));
}

/// Checks a value that must be `male`, `female` or `random`.
pub fn check_gender(f: &Field, sink: &mut Sink)
    ensures
        sigs(final(sink)@) == sigs(old(sink)@) + gender_sigs(*f),
{
    match &f.value {
        BV::Value(t) => {
            let s = t.as_str();
            if !(str_eq(s, "male") || str_eq(s, "female") || str_eq(s, "random")) {
                report_malformed(f, "expected male, female or random", sink);
            } else {
                assert(sigs(final(sink)@) =~= sigs(old(sink)@) + gender_sigs(*f));
            }
        },
        BV::Block(_) => report_malformed(f, "expected male, female or random, not a block", sink),
    }
}

/// Checks a value that must name an item of kind `item`.
pub fn check_item(f: &Field, data: &Everything, item: Item, sink: &mut Sink)
    ensures
        sigs(final(sink)@) == sigs(old(sink)@) + item_sigs(*f, *data, item),
{
    match &f.value {
        BV::Value(t) => {
            data.verify_exists(item, t, sink);
            if data.item_exists(item, t.as_str()) {
                assert(sigs(final(sink)@) =~= sigs(old(sink)@) + item_sigs(*f, *data, item));
            } else {
                proof {
                    lemma_sigs_one(old(sink)@, final(sink)@);
                }
                assert(sigs(final(sink)@) =~= sigs(old(sink)@) + item_sigs(*f, *data, item));
            }
        },
        BV::Block(_) => report_malformed(f, "expected an item name, not a block", sink),
    }
}

} // verus!
