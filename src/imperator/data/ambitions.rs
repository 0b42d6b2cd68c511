//! Ambitions: goals a character can pick, with triggers for when they can be
//! picked, when they are finished, and when they are aborted.
use vstd::prelude::*;

use crate::block::{sigs, Block, Field, Sig};
use crate::context::{ContextView, ScopeContext};
use crate::db::{Db, DbEntry, DbKind};
use crate::everything::Everything;
use crate::imperator::data::{check_localization, field_trigger, localization_sigs, trigger_block_sigs};
use crate::item::Item;
use crate::report::Sink;
use crate::scopes::{Scopes, CHARACTER};
use crate::token::Token;
use crate::trigger::Tooltipped;
use crate::validator::{
    bool_sigs, dup_sigs, first_sigs, lemma_marks_step, marks, unknown_sigs, value_sigs, Validator,
};

verus! {

/// The fields an ambition may have.
pub open spec fn ambition_fields() -> Seq<Seq<char>> {
    seq!["can_be_picked"@, "finished_when"@, "abort"@, "chance"@, "duration"@, "content"@]
}

/// The context of an ambition's triggers: a character.
pub open spec fn character_context() -> ContextView {
    let c = Scopes::spec_from_bits_truncate(CHARACTER);
    ContextView { root: c, this: c, prev: c, names: seq![] }
}

/// The diagnostics of validating the ambition `key = block`.
pub open spec fn ambition_sigs(data: Everything, key: Token, block: Block) -> Seq<Sig> {
    let fields = block.fields@;
    let n = fields.len() as int;
    let ctx = character_context();
    localization_sigs(data, key, key.s@ + "_desc"@) + trigger_block_sigs(data, ctx, fields, "can_be_picked"@)
        + trigger_block_sigs(data, ctx, fields, "finished_when"@) + trigger_block_sigs(
        data,
        ctx,
        fields,
        "abort"@,
    ) + trigger_block_sigs(data, ctx, fields, "chance"@) + dup_sigs(fields, "duration"@, n) + first_sigs(
        fields,
        "duration"@,
        |f: Field| value_sigs(f),
    ) + dup_sigs(fields, "content"@, n) + first_sigs(fields, "content"@, |f: Field| bool_sigs(f))
        + unknown_sigs(fields, marks(fields, ambition_fields()), n)
}

#[derive(Clone, Copy, Debug)]
pub struct Ambition {}

impl Ambition {
    pub fn add(db: &mut Db, key: Token, block: Block)
        ensures
            final(db)@ == old(db)@.push(DbEntry { item: Item::Ambition, key, block, kind: DbKind::Ambition }),
    {
        db.add(Item::Ambition, key, block, DbKind::Ambition);
    }

    /// Validates the ambition `key = block`.
    #[verifier::rlimit(60)]
    pub fn validate(&self, key: &Token, block: &Block, data: &Everything, sink: &mut Sink)
        ensures
            sigs(final(sink)@) == sigs(old(sink)@) + ambition_sigs(*data, *key, *block),
    {
        let ghost fields = block.fields@;
        let ghost n = fields.len() as int;
        let ghost names = ambition_fields();
        let ghost ctx = character_context();
        let mut vd = Validator::new(block, data);
        assert(vd.used() =~= marks(fields, names.subrange(0, 0)));

        let loca = key.s.clone().concat("_desc");
        check_localization(data, key, loca.as_str(), sink);
        let ghost a0 = localization_sigs(*data, *key, key.s@ + "_desc"@);

        let sc = ScopeContext::new(Scopes::from_bits_truncate(CHARACTER));
        assert(sc@ == ctx);
        field_trigger(&mut vd, "can_be_picked", data, &sc, Tooltipped::No, sink);
        let ghost a1 = trigger_block_sigs(*data, ctx, fields, "can_be_picked"@);
        proof { lemma_marks_step(fields, names, 0); }
        field_trigger(&mut vd, "finished_when", data, &sc, Tooltipped::Yes, sink);
        let ghost a2 = trigger_block_sigs(*data, ctx, fields, "finished_when"@);
        proof { lemma_marks_step(fields, names, 1); }
        field_trigger(&mut vd, "abort", data, &sc, Tooltipped::No, sink);
        let ghost a3 = trigger_block_sigs(*data, ctx, fields, "abort"@);
        proof { lemma_marks_step(fields, names, 2); }
        field_trigger(&mut vd, "chance", data, &sc, Tooltipped::No, sink);
        let ghost a4 = trigger_block_sigs(*data, ctx, fields, "chance"@);
        proof { lemma_marks_step(fields, names, 3); }

        vd.field_value("duration", sink);
        let ghost a5 = dup_sigs(fields, "duration"@, n) + first_sigs(fields, "duration"@, |f: Field| value_sigs(f));
        proof { lemma_marks_step(fields, names, 4); }
        vd.field_bool("content", sink);
        let ghost a6 = dup_sigs(fields, "content"@, n) + first_sigs(fields, "content"@, |f: Field| bool_sigs(f));
        proof { lemma_marks_step(fields, names, 5); }
        assert(names.subrange(0, 6) =~= names);
        assert(vd.used() == marks(fields, names));
        vd.finish(sink);
        let ghost a7 = unknown_sigs(fields, marks(fields, names), n);
        assert(sigs(final(sink)@) == sigs(old(sink)@) + a0 + a1 + a2 + a3 + a4 + a5 + a6 + a7);
        assert(ambition_sigs(*data, *key, *block) == a0 + a1 + a2 + a3 + a4 + a5 + a6 + a7);
        assert(sigs(final(sink)@) =~= sigs(old(sink)@) + ambition_sigs(*data, *key, *block));
    }
}

} // verus!
