use tiger::block::Block;
use tiger::db::{Db, DbKind};
use tiger::everything::Everything;
use tiger::imperator::data::ambitions::Ambition;
use tiger::imperator::data::ideas::Ideas;
use tiger::imperator::data::legion_distinctions::LegionDistinctions;
use tiger::item::Item;
use tiger::report::{ErrorKey, LogReport, Severity};
use tiger::token::{Loc, Token};

fn at(line: u32) -> Loc {
    Loc { file: 2, line, column: 1 }
}

fn tok(s: &str, line: u32) -> Token {
    Token::new(s, at(line))
}

fn localized(keys: &[&str]) -> Everything {
    let mut data = Everything::new();
    for k in keys {
        data.add_item(Item::Localization, k);
    }
    data
}

fn ambition(body: Block) -> Block {
    let mut block = Block::new(at(0));
    block.add_block(tok("can_be_picked", 1), body);
    block.add_value(tok("duration", 3), tok("12", 3));
    block.add_value(tok("content", 4), tok("yes", 4));
    block
}

#[test]
fn ambition_with_always_no_is_clean() {
    let data = localized(&["conquer", "conquer_desc"]);
    let mut body = Block::new(at(1));
    body.add_value(tok("always", 2), tok("no", 2));
    let mut sink: Vec<LogReport> = Vec::new();
    Ambition {}.validate(&tok("conquer", 0), &ambition(body), &data, &mut sink);
    assert!(sink.is_empty());
}

#[test]
fn ambition_with_unknown_trigger() {
    let data = localized(&["conquer", "conquer_desc"]);
    let mut body = Block::new(at(1));
    body.add_value(tok("nonexistent_trigger", 2), tok("yes", 2));
    let mut sink: Vec<LogReport> = Vec::new();
    Ambition {}.validate(&tok("conquer", 0), &ambition(body), &data, &mut sink);
    assert_eq!(sink.len(), 1);
    assert_eq!(sink[0].key, ErrorKey::UnknownIdentifier);
    assert_eq!(sink[0].severity, Severity::Warning);
    assert_eq!(sink[0].pointers[0].location, at(2));
}

#[test]
fn ambition_missing_localization_and_unknown_field() {
    let data = localized(&["conquer"]);
    let mut block = Block::new(at(0));
    block.add_value(tok("colour", 5), tok("red", 5));
    let mut sink: Vec<LogReport> = Vec::new();
    let key = tok("conquer", 0);
    Ambition {}.validate(&key, &block, &data, &mut sink);
    assert_eq!(sink.len(), 2);
    assert_eq!(sink[0].key, ErrorKey::MissingLocalization);
    assert_eq!(sink[0].pointers[0].location, key.loc);
    assert!(sink[0].msg.ends_with("conquer_desc"));
    assert_eq!(sink[1].key, ErrorKey::UnknownField);
    assert_eq!(sink[1].pointers[0].location, at(5));
}

#[test]
fn ideas_validation() {
    let mut data = localized(&["rome", "idea_rome_desc"]);
    data.add_item(Item::Modifier, "rome_bonus");
    let mut trigger = Block::new(at(1));
    trigger.add_value(tok("has_law", 1), tok("republic", 1));
    let mut block = Block::new(at(0));
    block.add_block(tok("trigger", 1), trigger);
    block.add_value(tok("modifier", 2), tok("rome_bonus", 2));
    block.add_value(tok("group", 3), tok("civic_ideas", 3));
    block.add_value(tok("soundeffect", 4), tok("bell", 4));
    let mut sink: Vec<LogReport> = Vec::new();
    Ideas {}.validate(&tok("rome", 0), &block, &data, &mut sink);
    let got: Vec<(ErrorKey, u32)> = sink.iter().map(|r| (r.key, r.pointers[0].location.line)).collect();
    assert_eq!(got, vec![(ErrorKey::MissingItem, 1), (ErrorKey::MissingItem, 4)]);
}

#[test]
fn legion_distinction_validation() {
    let mut data = localized(&["iron_legion", "iron_legion_desc"]);
    data.add_item(Item::File, "gfx/iron.dds");
    let mut commander = Block::new(at(2));
    commander.add_value(tok("martial", 2), tok("2", 2));
    let mut unit = Block::new(at(3));
    unit.add_value(tok("morale", 3), tok("lots", 3));
    let mut block = Block::new(at(0));
    block.add_value(tok("icon", 1), tok("gfx/iron.dds", 1));
    block.add_block(tok("commander", 2), commander);
    block.add_block(tok("unit", 3), unit);
    let mut sink: Vec<LogReport> = Vec::new();
    LegionDistinctions {}.validate(&tok("iron_legion", 0), &block, &data, &mut sink);
    assert_eq!(sink.len(), 1);
    assert_eq!(sink[0].key, ErrorKey::Validation);
    assert_eq!(sink[0].pointers[0].location, at(3));
}

#[test]
fn database_adds_and_validates_in_order() {
    let mut db = Db::new();
    Ambition::add(&mut db, tok("a", 1), Block::new(at(1)));
    Ideas::add(&mut db, tok("b", 2), Block::new(at(2)));
    LegionDistinctions::add(&mut db, tok("c", 3), Block::new(at(3)));
    assert_eq!(db.len(), 3);
    assert_eq!(db.get(0).kind, DbKind::Ambition);
    assert_eq!(db.get(1).item, Item::Ideas);
    assert_eq!(db.get(2).key.as_str(), "c");
    let data = localized(&["a", "a_desc", "b", "idea_b_desc", "c"]);
    let mut sink: Vec<LogReport> = Vec::new();
    db.validate_all(&data, &mut sink);
    assert_eq!(sink.len(), 1);
    assert!(sink[0].msg.ends_with("c_desc"));
}
