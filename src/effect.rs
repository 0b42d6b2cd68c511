//! Validation of effect blocks: mutations, whose saved scopes thread through
//! the block in source order, and whose branching constructs validate each
//! branch against an independent fork of the context.
use vstd::prelude::*;

use crate::block::{lemma_sigs_one, sigs, Block, Field, Sig, BV};
use crate::context::{ContextView, ScopeContext};
use crate::everything::{missing_key, Everything};
use crate::report::{ErrorKey, Severity, Sink};
use crate::tables::effects::{
    effect_family, effect_reports, resolve_effect, scope_effect_lowered, ControlEffect, Effect,
};
use crate::tables::in_catalog;
use crate::text::{is_number, is_number_literal, lower_of, lowercase, str_eq};
use crate::trigger::{trigger_fields_sigs, validate_trigger, Tooltipped};
use crate::item::Item;
use crate::scopes::Scopes;
use crate::validator::{
    bool_sigs, dup_sigs, first_sigs, item_sigs, lemma_marks_step, malformed, marks, unknown_sigs,
    value_sigs, Validator,
};
use crate::values::{
    report_malformed, check_bool, check_gender, check_integer, check_item, check_nonnegative, check_scope,
    check_scope_arg, check_yes, emit, gender_sigs, integer_sigs, nonnegative_sigs, scope_arg_sigs,
    scope_sigs, yes_sigs,
};

verus! {

/// The key of `f` opens or continues an `if` chain.
pub open spec fn opens_chain(f: Field) -> bool {
    lower_of(f.key.s@) == "if"@ || lower_of(f.key.s@) == "else_if"@
}

/// The missing-implied-item Error of a dynamic-name family, if any.
pub open spec fn family_sigs(data: Everything, name: Seq<char>, f: Field) -> Seq<Sig> {
    if !in_catalog(data.effect_catalog(), name) && effect_family(name) is Some {
        let (kind, fragment, _, _) = effect_family(name)->0;
        if data.has(kind, fragment) {
            seq![]
        } else {
            seq![(missing_key(kind), Severity::Error, f.key.loc)]
        }
    } else {
        seq![]
    }
}

/// A structural-misuse Error at the key of `f` if `misplaced`.
pub open spec fn misuse_sigs(f: Field, misplaced: bool) -> Seq<Sig> {
    if misplaced {
        seq![(ErrorKey::Structure, Severity::Error, f.key.loc)]
    } else {
        seq![]
    }
}

/// The diagnostics of validating `fields[..n]` as effects starting in `ctx`,
/// and the context after them.
pub open spec fn effect_fields(data: Everything, ctx: ContextView, fields: Seq<Field>, n: int) -> (
    Seq<Sig>,
    ContextView,
)
    decreases fields, n,
{
    if n <= 0 || n > fields.len() {
        (seq![], ctx)
    } else {
        let (s0, c0) = effect_fields(data, ctx, fields, n - 1);
        let after_if = n >= 2 && opens_chain(fields[n - 2]);
        let (s1, c1) = effect_field(data, c0, fields[n - 1], after_if);
        (s0 + s1, c1)
    }
}

/// The diagnostics of one field of an effect block, and the context after it.
/// `limit` holds triggers; `chance` is a weight; any other key must resolve
/// as an effect, is checked for scope, and then for the shape of its value.
pub open spec fn effect_field(data: Everything, ctx: ContextView, f: Field, after_if: bool) -> (
    Seq<Sig>,
    ContextView,
)
    decreases f, 1int,
{
    let name = lower_of(f.key.s@);
    if name == "limit"@ {
        match f.value {
            BV::Block(b) => (trigger_fields_sigs(data, ctx, b.fields@, b.fields@.len() as int), ctx),
            BV::Value(_) => (malformed(f), ctx),
        }
    } else if name == "chance"@ {
        (seq![], ctx)
    } else {
        match resolve_effect(data.effect_catalog(), name) {
            None => (seq![(ErrorKey::UnknownIdentifier, Severity::Warning, f.key.loc)], ctx),
            Some((s, e)) => {
                let (body, c) = effect_shape(data, ctx, f, name, e, after_if);
                (family_sigs(data, name, f) + scope_sigs(s, ctx, f.key.loc) + body, c)
            },
        }
    }
}

/// The diagnostics of the value of `f`, an effect of shape `e`, and the
/// context after it. A scope-shaped effect that opens a block holds effects
/// on the scope it addresses, validated in a fork of the context.
pub open spec fn effect_shape(
    data: Everything,
    ctx: ContextView,
    f: Field,
    name: Seq<char>,
    e: Effect,
    after_if: bool,
) -> (Seq<Sig>, ContextView)
    decreases f, 0int,
{
    match e {
        Effect::Yes => (yes_sigs(f), ctx),
        Effect::Bool => (bool_sigs(f), ctx),
        Effect::Integer => (integer_sigs(f), ctx),
        Effect::NonNegativeValue => (nonnegative_sigs(f), ctx),
        Effect::Scope(x) => match f.value {
            BV::Block(b) => (effect_fields(data, ctx.opened(x), b.fields@, b.fields@.len() as int).0, ctx),
            BV::Value(_) => (scope_arg_sigs(ctx, f, x), ctx),
        },
        Effect::Item(k) => (item_sigs(f, data, k), ctx),
        Effect::Target(..) | Effect::TargetValue(..) | Effect::ItemTarget(..) | Effect::ItemValue(
            ..,
        ) => match f.value {
            BV::Block(b) => (structured_sigs(data, ctx, b.fields@, e), ctx),
            BV::Value(_) => (malformed(f), ctx),
        },
        Effect::Gender => (gender_sigs(f), ctx),
        Effect::Value | Effect::ScriptValue | Effect::Desc | Effect::Special(_) => (seq![], ctx),
        Effect::Unchecked => if (name == "save_scope_as"@ || name == "save_temporary_scope_as"@)
            && f.value is Value {
            (seq![], ctx.saved(f.value->Value_0.s@, ctx.this))
        } else {
            (seq![], ctx)
        },
        Effect::Control(op) => match op {
            ControlEffect::If | ControlEffect::Else | ControlEffect::Random | ControlEffect::While => {
                let misplaced = match op {
                    ControlEffect::If => name == "else_if"@ && !after_if,
                    ControlEffect::Else => !after_if,
                    _ => false,
                };
                match f.value {
                    BV::Block(b) => (
                        misuse_sigs(f, misplaced) + effect_fields(
                            data,
                            ctx,
                            b.fields@,
                            b.fields@.len() as int,
                        ).0,
                        ctx,
                    ),
                    BV::Value(_) => (misuse_sigs(f, misplaced) + malformed(f), ctx),
                }
            },
            ControlEffect::RandomList | ControlEffect::Switch => match f.value {
                BV::Block(b) => (
                    branches(data, ctx, b.fields@, b.fields@.len() as int, op == ControlEffect::RandomList),
                    ctx,
                ),
                BV::Value(_) => (malformed(f), ctx),
            },
            ControlEffect::CustomTooltip => match f.value {
                BV::Block(b) => effect_fields(data, ctx, b.fields@, b.fields@.len() as int),
                BV::Value(_) => (seq![], ctx),
            },
            _ => match f.value {
                BV::Block(b) => effect_fields(data, ctx, b.fields@, b.fields@.len() as int),
                BV::Value(_) => (malformed(f), ctx),
            },
        },
    }
}

/// The diagnostics of the fields of key `name` in an argument block, whose
/// first value must be a scope expression addressing `s`.
pub open spec fn target_sigs(ctx: ContextView, fields: Seq<Field>, name: Seq<char>, s: Scopes) -> Seq<Sig> {
    dup_sigs(fields, name, fields.len() as int) + first_sigs(fields, name, |f: Field| scope_arg_sigs(ctx, f, s))
}

/// The diagnostics of the fields of key `name` in an argument block, whose
/// first value must name an item of kind `item`.
pub open spec fn item_key_sigs(data: Everything, fields: Seq<Field>, name: Seq<char>, item: Item) -> Seq<Sig> {
    dup_sigs(fields, name, fields.len() as int) + first_sigs(fields, name, |f: Field| item_sigs(f, data, item))
}

/// The diagnostics of the argument block `fields` of an effect with named
/// arguments: each argument is checked by its declared shape (a value may be
/// anything, a number, a named value or a math block), and any other key is
/// unknown.
pub open spec fn structured_sigs(data: Everything, ctx: ContextView, fields: Seq<Field>, e: Effect) -> Seq<Sig> {
    let n = fields.len() as int;
    match e {
        Effect::Target(k, s) => target_sigs(ctx, fields, k@, s) + unknown_sigs(fields, marks(fields, seq![k@]), n),
        Effect::TargetValue(k, s, v) => target_sigs(ctx, fields, k@, s) + dup_sigs(fields, v@, n)
            + unknown_sigs(fields, marks(fields, seq![k@, v@]), n),
        Effect::ItemTarget(k, item, t, s) => item_key_sigs(data, fields, k@, item) + target_sigs(ctx, fields, t@, s)
            + unknown_sigs(fields, marks(fields, seq![k@, t@]), n),
        Effect::ItemValue(k, item) => item_key_sigs(data, fields, k@, item) + dup_sigs(fields, "value"@, n)
            + unknown_sigs(fields, marks(fields, seq![k@, "value"@]), n),
        _ => seq![],
    }
}

/// The diagnostics of the entries `fields[..n]` of a `random_list`
/// (`weighted`) or a `switch`, each validated against `ctx` itself.
pub open spec fn branches(data: Everything, ctx: ContextView, fields: Seq<Field>, n: int, weighted: bool) -> Seq<
    Sig,
>
    decreases fields, n,
{
    if n <= 0 || n > fields.len() {
        seq![]
    } else {
        branches(data, ctx, fields, n - 1, weighted) + branch(data, ctx, fields[n - 1], weighted)
    }
}

/// The diagnostics of one entry of a `random_list` (whose key must be a
/// number) or of a `switch` (whose `trigger` names what is switched on).
pub open spec fn branch(data: Everything, ctx: ContextView, f: Field, weighted: bool) -> Seq<Sig>
    decreases f, 0int,
{
    if !weighted && f.key.s@ == "trigger"@ {
        value_sigs(f)
    } else {
        let key_sigs = if weighted && !is_number_literal(f.key.s@) {
            seq![(ErrorKey::Validation, Severity::Error, f.key.loc)]
        } else {
            seq![]
        };
        key_sigs + match f.value {
            BV::Block(b) => effect_fields(data, ctx, b.fields@, b.fields@.len() as int).0,
            BV::Value(_) => malformed(f),
        }
    }
}

/// A branching construct (`if`, `else_if`, `else`, `random`, `while`,
/// `random_list`, `switch`) leaves the context exactly as it found it: what its
/// branches save stays inside them.
pub proof fn law_branching_restores_context(
    data: Everything,
    ctx: ContextView,
    f: Field,
    name: Seq<char>,
    op: ControlEffect,
    after_if: bool,
)
    requires
        op == ControlEffect::If || op == ControlEffect::Else || op == ControlEffect::Random || op
            == ControlEffect::While || op == ControlEffect::RandomList || op == ControlEffect::Switch,
    ensures
        effect_shape(data, ctx, f, name, Effect::Control(op), after_if).1 == ctx,
{
}

/// The branches up to `n` depend on the entries up to `n` alone.
proof fn lemma_branches_prefix(
    data: Everything,
    ctx: ContextView,
    fields: Seq<Field>,
    m: int,
    n: int,
    weighted: bool,
)
    requires
        0 <= n <= m <= fields.len(),
    ensures
        branches(data, ctx, fields.subrange(0, m), n, weighted) == branches(data, ctx, fields, n, weighted),
    decreases n,
{
    if n > 0 {
        lemma_branches_prefix(data, ctx, fields, m, n - 1, weighted);
        assert(fields.subrange(0, m)[n - 1] == fields[n - 1]);
    }
}

/// Sibling branches do not see one another: the diagnostics of the entries
/// of a `random_list` or a `switch` are those of its first `k` entries followed
/// by those of the others, each part validated alone against the parent context.
pub proof fn law_siblings_independent(
    data: Everything,
    ctx: ContextView,
    fields: Seq<Field>,
    k: int,
    weighted: bool,
)
    requires
        0 <= k <= fields.len(),
    ensures
        branches(data, ctx, fields, fields.len() as int, weighted) == branches(
            data,
            ctx,
            fields.subrange(0, k),
            k,
            weighted,
        ) + branches(data, ctx, fields.subrange(k, fields.len() as int), fields.len() - k, weighted),
    decreases fields.len(),
{
    let n = fields.len() as int;
    lemma_branches_prefix(data, ctx, fields, k, k, weighted);
    assert(fields.subrange(0, k) =~= fields.subrange(0, k));
    if k == n {
        assert(branches(data, ctx, fields.subrange(k, n), 0, weighted) == Seq::<Sig>::empty());
        assert(fields.subrange(0, n) =~= fields);
        assert(branches(data, ctx, fields, n, weighted) =~= branches(data, ctx, fields.subrange(0, k), k, weighted)
            + Seq::<Sig>::empty());
    } else {
        let shorter = fields.drop_last();
        law_siblings_independent(data, ctx, shorter, k, weighted);
        lemma_branches_prefix(data, ctx, fields, n - 1, n - 1, weighted);
        assert(fields.subrange(0, n - 1) =~= shorter);
        assert(shorter.subrange(0, k) =~= fields.subrange(0, k));
        let rest = fields.subrange(k, n);
        assert(rest.drop_last() =~= shorter.subrange(k, n - 1));
        lemma_branches_prefix(data, ctx, rest, n - k - 1, n - k - 1, weighted);
        assert(rest.subrange(0, n - k - 1) =~= shorter.subrange(k, n - 1));
        assert(rest[n - k - 1] == fields[n - 1]);
        assert(branches(data, ctx, fields, n, weighted) =~= branches(data, ctx, fields.subrange(0, k), k, weighted)
            + branches(data, ctx, rest, n - k, weighted));
    }
}

/// The diagnostics that resolving a name adds are those of `family_sigs`.
proof fn lemma_family_sigs(
    data: Everything,
    name: Seq<char>,
    f: Field,
    before: Seq<crate::report::LogReport>,
    after: Seq<crate::report::LogReport>,
)
    requires
        effect_reports(data, name, f.key.loc, before, after),
    ensures
        sigs(after) == sigs(before) + family_sigs(data, name, f),
{
    if !in_catalog(data.effect_catalog(), name) && effect_family(name) is Some {
        let (kind, fragment, _, _) = effect_family(name)->0;
        if !data.has(kind, fragment) {
            lemma_sigs_one(before, after);
        }
    }
    assert(sigs(after) =~= sigs(before) + family_sigs(data, name, f));
}

/// Validates `block` as a block of effects in the context `sc`, which ends up
/// holding the scopes that the block saved outside its branches.
pub fn validate_effect(
    block: &Block,
    data: &Everything,
    sc: &mut ScopeContext,
    tooltipped: Tooltipped,
    sink: &mut Sink,
)
    ensures
        sigs(final(sink)@) == sigs(old(sink)@) + effect_fields(
            *data,
            old(sc)@,
            block.fields@,
            block.fields@.len() as int,
        ).0,
        final(sc)@ == effect_fields(*data, old(sc)@, block.fields@, block.fields@.len() as int).1,
    decreases block, 2int,
{
    let ghost ctx0 = sc@;
    let mut after_if = false;
    let mut i: usize = 0;
    while i < block.fields.len()
        invariant
            i <= block.fields@.len(),
            sigs(sink@) == sigs(old(sink)@) + effect_fields(*data, ctx0, block.fields@, i as int).0,
            sc@ == effect_fields(*data, ctx0, block.fields@, i as int).1,
            after_if == (i >= 1 && opens_chain(block.fields@[i - 1])),
        decreases block.fields@.len() - i,
    {
        proof {
            assert(decreases_to!(block => block.fields));
            assert(decreases_to!(block.fields => block.fields@));
            assert(decreases_to!(block.fields@ => block.fields@[i as int]));
        }
        after_if = validate_effect_field(&block.fields[i], data, sc, tooltipped, after_if, sink);
        i = i + 1;
        assert(sigs(sink@) =~= sigs(old(sink)@) + effect_fields(*data, ctx0, block.fields@, i as int).0);
    }
}

/// Validates one field of an effect block; returns whether it opens or
/// continues an `if` chain.
fn validate_effect_field(
    f: &Field,
    data: &Everything,
    sc: &mut ScopeContext,
    tooltipped: Tooltipped,
    after_if: bool,
    sink: &mut Sink,
) -> (opens: bool)
    ensures
        opens == opens_chain(*f),
        sigs(final(sink)@) == sigs(old(sink)@) + effect_field(*data, old(sc)@, *f, after_if).0,
        final(sc)@ == effect_field(*data, old(sc)@, *f, after_if).1,
    decreases f, 1int,
{
    let lw = lowercase(f.key.as_str());
    let name = lw.as_str();
    let opens = str_eq(name, "if") || str_eq(name, "else_if");
    if str_eq(name, "limit") {
        match &f.value {
            BV::Block(b) => {
                proof {
                    assert(decreases_to!(f => f.value));
                }
                validate_trigger(b, data, &*sc, tooltipped, sink);
            },
            BV::Value(_) => report_malformed(f, "expected a block of triggers", sink),
        }
    } else if str_eq(name, "chance") {
        assert(sigs(final(sink)@) =~= sigs(old(sink)@) + seq![]);
    } else {
        let ghost before = sink@;
        match scope_effect_lowered(name, &f.key, data, sink) {
            None => {
                emit(ErrorKey::UnknownIdentifier, Severity::Warning, "unknown effect", f.key.loc, sink);
            },
            Some((s, e)) => {
                proof {
                    lemma_family_sigs(*data, name@, *f, before, sink@);
                }
                check_scope(&s, sc, &f.key, sink);
                validate_effect_shape(f, data, sc, name, e, after_if, tooltipped, sink);
                assert(sigs(final(sink)@) =~= sigs(old(sink)@) + effect_field(*data, old(sc)@, *f, after_if).0);
            },
        }
    }
    opens
}

/// Validates the value of `f`, an effect of shape `e` named `name`.
fn validate_effect_shape(
    f: &Field,
    data: &Everything,
    sc: &mut ScopeContext,
    name: &str,
    e: Effect,
    after_if: bool,
    tooltipped: Tooltipped,
    sink: &mut Sink,
)
    ensures
        sigs(final(sink)@) == sigs(old(sink)@) + effect_shape(*data, old(sc)@, *f, name@, e, after_if).0,
        final(sc)@ == effect_shape(*data, old(sc)@, *f, name@, e, after_if).1,
    decreases f, 0int,
{
    proof {
        assert(decreases_to!(f => f.value));
    }
    match e {
        Effect::Yes => check_yes(f, sink),
        Effect::Bool => check_bool(f, sink),
        Effect::Integer => check_integer(f, sink),
        Effect::NonNegativeValue => check_nonnegative(f, sink),
        Effect::Scope(x) => match &f.value {
            BV::Block(b) => {
                let mut inner = sc.open_scope(x);
                validate_effect(b, data, &mut inner, tooltipped, sink);
            },
            BV::Value(_) => check_scope_arg(sc, f, &x, sink),
        },
        Effect::Item(k) => check_item(f, data, k, sink),
        Effect::Target(..) | Effect::TargetValue(..) | Effect::ItemTarget(..) | Effect::ItemValue(..) => {
            match &f.value {
                BV::Block(b) => validate_structured(b, data, &*sc, e, sink),
                BV::Value(_) => report_malformed(f, "expected a block of arguments", sink),
            }
        },
        Effect::Gender => check_gender(f, sink),
        Effect::Value | Effect::ScriptValue | Effect::Desc | Effect::Special(_) => {
            assert(sigs(final(sink)@) =~= sigs(old(sink)@) + seq![]);
        },
        Effect::Unchecked => {
            if str_eq(name, "save_scope_as") || str_eq(name, "save_temporary_scope_as") {
                if let BV::Value(t) = &f.value {
                    let this = sc.this();
                    sc.save(t.as_str(), this);
                }
            }
            assert(sigs(final(sink)@) =~= sigs(old(sink)@) + seq![]);
        },
        Effect::Control(op) => match op {
            ControlEffect::If | ControlEffect::Else | ControlEffect::Random | ControlEffect::While => {
                let misplaced = match op {
                    ControlEffect::If => str_eq(name, "else_if") && !after_if,
                    ControlEffect::Else => !after_if,
                    _ => false,
                };
                if misplaced {
                    emit(ErrorKey::Structure, Severity::Error, "this needs an if or else_if just before it", f.key.loc, sink);
                }
                let ghost mid = sink@;
                assert(sigs(mid) =~= sigs(old(sink)@) + misuse_sigs(*f, misplaced));
                match &f.value {
                    BV::Block(b) => {
                        let mut branch = sc.fork();
                        validate_effect(b, data, &mut branch, tooltipped, sink);
                    },
                    BV::Value(_) => report_malformed(f, "expected a block of effects", sink),
                }
                assert(sigs(final(sink)@) =~= sigs(old(sink)@) + effect_shape(*data, old(sc)@, *f, name@, e, after_if).0);
            },
            ControlEffect::RandomList | ControlEffect::Switch => match &f.value {
                BV::Block(b) => validate_branches(b, data, &*sc, op == ControlEffect::RandomList, tooltipped, sink),
                BV::Value(_) => report_malformed(f, "expected a block of branches", sink),
            },
            ControlEffect::CustomTooltip => match &f.value {
                BV::Block(b) => validate_effect(b, data, sc, Tooltipped::No, sink),
                BV::Value(_) => {
                    assert(sigs(final(sink)@) =~= sigs(old(sink)@) + seq![]);
                },
            },
            _ => match &f.value {
                BV::Block(b) => {
                    let inner = match op {
                        ControlEffect::ShowAsTooltip => Tooltipped::Yes,
                        ControlEffect::HiddenEffect => Tooltipped::No,
                        _ => tooltipped,
                    };
                    validate_effect(b, data, sc, inner, sink)
                },
                BV::Value(_) => report_malformed(f, "expected a block of effects", sink),
            },
        },
    }
}

/// Validates the entries of a `random_list` (`weighted`) or a `switch`, each
/// against its own fork of `sc`.
fn validate_branches(
    block: &Block,
    data: &Everything,
    sc: &ScopeContext,
    weighted: bool,
    tooltipped: Tooltipped,
    sink: &mut Sink,
)
    ensures
        sigs(final(sink)@) == sigs(old(sink)@) + branches(
            *data,
            sc@,
            block.fields@,
            block.fields@.len() as int,
            weighted,
        ),
    decreases block, 3int,
{
    let mut i: usize = 0;
    while i < block.fields.len()
        invariant
            i <= block.fields@.len(),
            sigs(sink@) == sigs(old(sink)@) + branches(*data, sc@, block.fields@, i as int, weighted),
        decreases block.fields@.len() - i,
    {
        proof {
            assert(decreases_to!(block => block.fields));
            assert(decreases_to!(block.fields => block.fields@));
            assert(decreases_to!(block.fields@ => block.fields@[i as int]));
        }
        validate_branch(&block.fields[i], data, sc, weighted, tooltipped, sink);
        i = i + 1;
        assert(sigs(sink@) =~= sigs(old(sink)@) + branches(*data, sc@, block.fields@, i as int, weighted));
    }
}

/// Validates one entry of a `random_list` or a `switch`.
fn validate_branch(
    f: &Field,
    data: &Everything,
    sc: &ScopeContext,
    weighted: bool,
    tooltipped: Tooltipped,
    sink: &mut Sink,
)
    ensures
        sigs(final(sink)@) == sigs(old(sink)@) + branch(*data, sc@, *f, weighted),
    decreases f, 2int,
{
    proof {
        assert(decreases_to!(f => f.value));
    }
    if !weighted && str_eq(f.key.as_str(), "trigger") {
        match &f.value {
            BV::Value(_) => {
                assert(sigs(final(sink)@) =~= sigs(old(sink)@) + branch(*data, sc@, *f, weighted));
            },
            BV::Block(_) => report_malformed(f, "expected the name of what is switched on", sink),
        }
    } else {
        if weighted && !is_number(f.key.as_str()) {
            emit(ErrorKey::Validation, Severity::Error, "expected a weight", f.key.loc, sink);
        }
        match &f.value {
            BV::Block(b) => {
                let mut fork = sc.fork();
                validate_effect(b, data, &mut fork, tooltipped, sink);
            },
            BV::Value(_) => report_malformed(f, "expected a block of effects", sink),
        }
        assert(sigs(final(sink)@) =~= sigs(old(sink)@) + branch(*data, sc@, *f, weighted));
    }
}

/// Checks the argument `name` of a structured effect: a scope expression addressing `s`.
fn field_target<'a>(vd: &mut Validator<'a>, name: &str, sc: &ScopeContext, s: &Scopes, sink: &mut Sink)
    requires
        old(vd).wf(),
    ensures
        old(vd).marked(*final(vd), name@),
        sigs(final(sink)@) == sigs(old(sink)@) + target_sigs(sc@, old(vd).fields(), name@, *s),
{
    let ghost fields = vd.fields();
    match vd.field_any(name, sink) {
        Some(f) => check_scope_arg(sc, f, s, sink),
        None => {},
    }
    assert(sigs(final(sink)@) =~= sigs(old(sink)@) + target_sigs(sc@, fields, name@, *s));
}

/// Validates the argument block of an effect with named arguments.
#[verifier::rlimit(40)]
fn validate_structured(block: &Block, data: &Everything, sc: &ScopeContext, e: Effect, sink: &mut Sink)
    ensures
        sigs(final(sink)@) == sigs(old(sink)@) + structured_sigs(*data, sc@, block.fields@, e),
{
    let ghost fields = block.fields@;
    let ghost n = fields.len() as int;
    let mut vd = Validator::new(block, data);
    assert(vd.used() =~= marks(fields, seq![]));
    match e {
        Effect::Target(k, s) => {
            field_target(&mut vd, k, sc, &s, sink);
            proof { lemma_marks_step(fields, seq![k@], 0); assert(seq![k@].subrange(0, 0) =~= seq![]); assert(seq![k@].subrange(0, 1) =~= seq![k@]); }
            vd.finish(sink);
        },
        Effect::TargetValue(k, s, v) => {
            field_target(&mut vd, k, sc, &s, sink);
            let _ = vd.field_any(v, sink);
            proof {
                let names = seq![k@, v@];
                lemma_marks_step(fields, names, 0);
                lemma_marks_step(fields, names, 1);
                assert(names.subrange(0, 0) =~= seq![]);
                assert(names.subrange(0, 2) =~= names);
            }
            vd.finish(sink);
        },
        Effect::ItemTarget(k, item, t, s) => {
            vd.field_item(k, item, sink);
            field_target(&mut vd, t, sc, &s, sink);
            proof {
                let names = seq![k@, t@];
                lemma_marks_step(fields, names, 0);
                lemma_marks_step(fields, names, 1);
                assert(names.subrange(0, 0) =~= seq![]);
                assert(names.subrange(0, 2) =~= names);
            }
            vd.finish(sink);
        },
        Effect::ItemValue(k, item) => {
            vd.field_item(k, item, sink);
            let _ = vd.field_any("value", sink);
            proof {
                let names = seq![k@, "value"@];
                lemma_marks_step(fields, names, 0);
                lemma_marks_step(fields, names, 1);
                assert(names.subrange(0, 0) =~= seq![]);
                assert(names.subrange(0, 2) =~= names);
            }
            vd.finish(sink);
        },
        _ => {
            assert(sigs(final(sink)@) =~= sigs(old(sink)@) + seq![]);
        },
    }
    assert(sigs(final(sink)@) =~= sigs(old(sink)@) + structured_sigs(*data, sc@, fields, e));
}

} // verus!
