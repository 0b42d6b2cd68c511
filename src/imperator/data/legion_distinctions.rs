//! Legion distinctions: honours a legion can earn, with the modifiers they
//! give its commander and its units.
use vstd::prelude::*;

use crate::block::{sigs, Block, Field, Sig, BV};
use crate::db::{Db, DbEntry, DbKind};
use crate::everything::Everything;
use crate::imperator::data::{check_localization, localization_sigs};
use crate::item::Item;
use crate::modif::{modif_sigs, validate_modifs};
use crate::report::Sink;
use crate::token::Token;
use crate::validator::{
    block_sigs, dup_sigs, first_key, first_sigs, item_sigs, lemma_marks_step, marks, unknown_sigs,
    Validator,
};

verus! {

/// The fields a legion distinction may have.
pub open spec fn distinction_fields() -> Seq<Seq<char>> {
    seq!["icon"@, "commander"@, "unit"@]
}

/// The diagnostics of the fields of key `name`, whose first value is a block
/// of modifiers.
pub open spec fn modif_block_sigs(fields: Seq<Field>, name: Seq<char>) -> Seq<Sig> {
    dup_sigs(fields, name, fields.len() as int) + first_sigs(fields, name, |f: Field| block_sigs(f))
        + match first_key(fields, name, fields.len() as int) {
        Some(k) => match fields[k].value {
            BV::Block(b) => modif_sigs(b.fields@, b.fields@.len() as int),
            BV::Value(_) => seq![],
        },
        None => seq![],
    }
}

/// The diagnostics of validating the legion distinction `key = block`.
pub open spec fn distinction_sigs(data: Everything, key: Token, block: Block) -> Seq<Sig> {
    let fields = block.fields@;
    let n = fields.len() as int;
    localization_sigs(data, key, key.s@ + "_desc"@) + dup_sigs(fields, "icon"@, n) + first_sigs(
        fields,
        "icon"@,
        |f: Field| item_sigs(f, data, Item::File),
    ) + modif_block_sigs(fields, "commander"@) + modif_block_sigs(fields, "unit"@) + unknown_sigs(
        fields,
        marks(fields, distinction_fields()),
        n,
    )
}

/// Consumes the fields of key `name` and checks the first, a block of modifiers.
fn field_modifs<'a>(vd: &mut Validator<'a>, name: &str, sink: &mut Sink)
    requires
        old(vd).wf(),
    ensures
        old(vd).marked(*final(vd), name@),
        sigs(final(sink)@) == sigs(old(sink)@) + modif_block_sigs(old(vd).fields(), name@),
{
    let ghost fields = vd.fields();
    if let Some(b) = vd.field_block(name, sink) {
        validate_modifs(b, sink);
    } else {
        let ghost k = first_key(fields, name@, fields.len() as int);
        assert(!(k matches Some(j) && fields[j].value is Block));
    }
    assert(sigs(final(sink)@) =~= sigs(old(sink)@) + modif_block_sigs(fields, name@));
}

#[derive(Clone, Copy, Debug)]
pub struct LegionDistinctions {}

impl LegionDistinctions {
    pub fn add(db: &mut Db, key: Token, block: Block)
        ensures
            final(db)@ == old(db)@.push(
                DbEntry { item: Item::LegionDistinctions, key, block, kind: DbKind::LegionDistinctions },
            ),
    {
        db.add(Item::LegionDistinctions, key, block, DbKind::LegionDistinctions);
    }

    /// Validates the legion distinction `key = block`.
    #[verifier::rlimit(60)]
    pub fn validate(&self, key: &Token, block: &Block, data: &Everything, sink: &mut Sink)
        ensures
            sigs(final(sink)@) == sigs(old(sink)@) + distinction_sigs(*data, *key, *block),
    {
        let ghost fields = block.fields@;
        let ghost n = fields.len() as int;
        let ghost names = distinction_fields();
        let mut vd = Validator::new(block, data);
        assert(vd.used() =~= marks(fields, names.subrange(0, 0)));

        let loca = key.s.clone().concat("_desc");
        check_localization(data, key, loca.as_str(), sink);
        let ghost a0 = localization_sigs(*data, *key, key.s@ + "_desc"@);

        vd.field_item("icon", Item::File, sink);
        let ghost a1 = dup_sigs(fields, "icon"@, n) + first_sigs(fields, "icon"@, |f: Field| item_sigs(f, *data, Item::File));
        proof { lemma_marks_step(fields, names, 0); }
        field_modifs(&mut vd, "commander", sink);
        let ghost a2 = modif_block_sigs(fields, "commander"@);
        proof { lemma_marks_step(fields, names, 1); }
        field_modifs(&mut vd, "unit", sink);
        let ghost a3 = modif_block_sigs(fields, "unit"@);
        proof { lemma_marks_step(fields, names, 2); }
        assert(names.subrange(0, 3) =~= names);
        assert(vd.used() == marks(fields, names));
        vd.finish(sink);
        let ghost a4 = unknown_sigs(fields, marks(fields, names), n);
        assert(sigs(final(sink)@) == sigs(old(sink)@) + a0 + a1 + a2 + a3 + a4);
        assert(distinction_sigs(*data, *key, *block) == a0 + a1 + a2 + a3 + a4);
        assert(sigs(final(sink)@) =~= sigs(old(sink)@) + distinction_sigs(*data, *key, *block));
    }
}

} // verus!
