//! Ideas: national ideas a country can adopt, each in one of four groups.
use vstd::prelude::*;

use crate::block::{sigs, Block, Field, Sig};
use crate::context::{ContextView, ScopeContext};
use crate::db::{Db, DbEntry, DbKind};
use crate::everything::Everything;
use crate::imperator::data::{check_localization, field_trigger, localization_sigs, trigger_block_sigs};
use crate::item::Item;
use crate::report::Sink;
use crate::scopes::{Scopes, COUNTRY};
use crate::token::Token;
use crate::trigger::Tooltipped;
use crate::validator::{
    choice_sigs, dup_sigs, first_sigs, item_sigs, lemma_marks_step, marks, unknown_sigs, Validator,
};

verus! {

/// The fields an idea may have.
pub open spec fn idea_fields() -> Seq<Seq<char>> {
    seq!["trigger"@, "modifier"@, "group"@, "soundeffect"@]
}

/// The groups an idea may belong to.
pub open spec fn idea_groups() -> Seq<&'static str> {
    seq!["military_ideas", "civic_ideas", "oratory_ideas", "religious_ideas"]
}

/// The context of an idea's trigger: a country.
pub open spec fn country_context() -> ContextView {
    let c = Scopes::spec_from_bits_truncate(COUNTRY);
    ContextView { root: c, this: c, prev: c, names: seq![] }
}

/// The diagnostics of validating the idea `key = block`.
pub open spec fn idea_sigs(data: Everything, key: Token, block: Block) -> Seq<Sig> {
    let fields = block.fields@;
    let n = fields.len() as int;
    localization_sigs(data, key, "idea_"@ + key.s@ + "_desc"@) + trigger_block_sigs(
        data,
        country_context(),
        fields,
        "trigger"@,
    ) + dup_sigs(fields, "modifier"@, n) + first_sigs(
        fields,
        "modifier"@,
        |f: Field| item_sigs(f, data, Item::Modifier),
    ) + dup_sigs(fields, "group"@, n) + first_sigs(fields, "group"@, |f: Field| choice_sigs(f, idea_groups()))
        + dup_sigs(fields, "soundeffect"@, n) + first_sigs(
        fields,
        "soundeffect"@,
        |f: Field| item_sigs(f, data, Item::Sound),
    ) + unknown_sigs(fields, marks(fields, idea_fields()), n)
}

#[derive(Clone, Copy, Debug)]
pub struct Ideas {}

impl Ideas {
    pub fn add(db: &mut Db, key: Token, block: Block)
        ensures
            final(db)@ == old(db)@.push(DbEntry { item: Item::Ideas, key, block, kind: DbKind::Ideas }),
    {
        db.add(Item::Ideas, key, block, DbKind::Ideas);
    }

    /// Validates the idea `key = block`.
    #[verifier::rlimit(60)]
    pub fn validate(&self, key: &Token, block: &Block, data: &Everything, sink: &mut Sink)
        ensures
            sigs(final(sink)@) == sigs(old(sink)@) + idea_sigs(*data, *key, *block),
    {
        let ghost fields = block.fields@;
        let ghost n = fields.len() as int;
        let ghost names = idea_fields();
        let ghost ctx = country_context();
        let mut vd = Validator::new(block, data);
        assert(vd.used() =~= marks(fields, names.subrange(0, 0)));

        let loca = String::from_str("idea_").concat(key.as_str()).concat("_desc");
        check_localization(data, key, loca.as_str(), sink);
        let ghost a0 = localization_sigs(*data, *key, "idea_"@ + key.s@ + "_desc"@);

        let sc = ScopeContext::new(Scopes::from_bits_truncate(COUNTRY));
        assert(sc@ == ctx);
        field_trigger(&mut vd, "trigger", data, &sc, Tooltipped::No, sink);
        let ghost a1 = trigger_block_sigs(*data, ctx, fields, "trigger"@);
        proof { lemma_marks_step(fields, names, 0); }
        vd.field_item("modifier", Item::Modifier, sink);
        let ghost a2 = dup_sigs(fields, "modifier"@, n) + first_sigs(
            fields,
            "modifier"@,
            |f: Field| item_sigs(f, *data, Item::Modifier),
        );
        proof { lemma_marks_step(fields, names, 1); }
        let groups: [&str; 4] = ["military_ideas", "civic_ideas", "oratory_ideas", "religious_ideas"];
        assert(groups@ == idea_groups());
        vd.field_choice("group", &groups, sink);
        let ghost a3 = dup_sigs(fields, "group"@, n) + first_sigs(fields, "group"@, |f: Field| choice_sigs(f, idea_groups()));
        proof { lemma_marks_step(fields, names, 2); }
        vd.field_item("soundeffect", Item::Sound, sink);
        let ghost a4 = dup_sigs(fields, "soundeffect"@, n) + first_sigs(
            fields,
            "soundeffect"@,
            |f: Field| item_sigs(f, *data, Item::Sound),
        );
        proof { lemma_marks_step(fields, names, 3); }
        assert(names.subrange(0, 4) =~= names);
        assert(vd.used() == marks(fields, names));
        vd.finish(sink);
        let ghost a5 = unknown_sigs(fields, marks(fields, names), n);
        assert(sigs(final(sink)@) == sigs(old(sink)@) + a0 + a1 + a2 + a3 + a4 + a5);
        assert(idea_sigs(*data, *key, *block) == a0 + a1 + a2 + a3 + a4 + a5);
        assert(sigs(final(sink)@) =~= sigs(old(sink)@) + idea_sigs(*data, *key, *block));
    }
}

} // verus!
