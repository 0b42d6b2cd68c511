use tiger::block::Block;
use tiger::everything::Everything;
use tiger::item::Item;
use tiger::report::{ErrorKey, LogReport, Severity};
use tiger::token::{Loc, Token};
use tiger::validator::Validator;

fn at(line: u32, column: u32) -> Loc {
    Loc { file: 0, line, column }
}

fn tok(s: &str, line: u32, column: u32) -> Token {
    Token::new(s, at(line, column))
}

#[test]
fn unconsumed_field_is_reported_by_name() {
    let mut block = Block::new(at(1, 1));
    block.add_value(tok("a", 1, 3), tok("1", 1, 7));
    block.add_value(tok("b", 1, 10), tok("2", 1, 14));
    let data = Everything::new();
    let mut sink: Vec<LogReport> = Vec::new();
    let mut vd = Validator::new(&block, &data);
    let a = vd.field_value("a", &mut sink);
    assert_eq!(a.map(|t| t.as_str()), Some("1"));
    vd.finish(&mut sink);
    assert_eq!(sink.len(), 1);
    assert_eq!(sink[0].key, ErrorKey::UnknownField);
    assert_eq!(sink[0].pointers[0].location, at(1, 10));
    assert!(sink[0].msg.contains('b'));
}

#[test]
fn absent_field_is_no_error() {
    let block = Block::new(at(1, 1));
    let data = Everything::new();
    let mut sink: Vec<LogReport> = Vec::new();
    let mut vd = Validator::new(&block, &data);
    assert!(vd.field_value("duration", &mut sink).is_none());
    vd.field_bool("content", &mut sink);
    vd.finish(&mut sink);
    assert!(sink.is_empty());
}

#[test]
fn duplicate_field_is_reported() {
    let mut block = Block::new(at(1, 1));
    block.add_value(tok("content", 2, 1), tok("yes", 2, 11));
    block.add_value(tok("content", 3, 1), tok("no", 3, 11));
    block.add_value(tok("content", 4, 1), tok("no", 4, 11));
    let data = Everything::new();
    let mut sink: Vec<LogReport> = Vec::new();
    let mut vd = Validator::new(&block, &data);
    vd.field_bool("content", &mut sink);
    vd.finish(&mut sink);
    assert_eq!(sink.len(), 2);
    assert!(sink.iter().all(|r| r.key == ErrorKey::DuplicateField && r.severity == Severity::Warning));
    assert_eq!(sink[0].pointers[0].location, at(3, 1));
    assert_eq!(sink[1].pointers[0].location, at(4, 1));
}

#[test]
fn key_match_is_case_sensitive() {
    let mut block = Block::new(at(1, 1));
    block.add_value(tok("Content", 2, 1), tok("yes", 2, 11));
    let data = Everything::new();
    let mut sink: Vec<LogReport> = Vec::new();
    let mut vd = Validator::new(&block, &data);
    vd.field_bool("content", &mut sink);
    vd.finish(&mut sink);
    assert_eq!(sink.len(), 1);
    assert_eq!(sink[0].key, ErrorKey::UnknownField);
}

#[test]
fn malformed_values() {
    let mut block = Block::new(at(1, 1));
    block.add_value(tok("content", 2, 1), tok("maybe", 2, 11));
    block.add_value(tok("group", 3, 1), tok("naval_ideas", 3, 9));
    block.add_value(tok("trigger", 4, 1), tok("yes", 4, 11));
    block.add_block(tok("duration", 5, 1), Block::new(at(5, 12)));
    let data = Everything::new();
    let mut sink: Vec<LogReport> = Vec::new();
    let mut vd = Validator::new(&block, &data);
    vd.field_bool("content", &mut sink);
    vd.field_choice("group", &["military_ideas", "civic_ideas"], &mut sink);
    assert!(vd.field_block("trigger", &mut sink).is_none());
    assert!(vd.field_value("duration", &mut sink).is_none());
    vd.finish(&mut sink);
    let locs: Vec<Loc> = sink.iter().map(|r| r.pointers[0].location).collect();
    assert!(sink.iter().all(|r| r.key == ErrorKey::Validation && r.severity == Severity::Error));
    assert_eq!(locs, vec![at(2, 11), at(3, 9), at(4, 11), at(5, 12)]);
}

#[test]
fn item_reference() {
    let mut block = Block::new(at(1, 1));
    block.add_value(tok("modifier", 2, 1), tok("idea_bonus", 2, 12));
    block.add_value(tok("soundeffect", 3, 1), tok("click", 3, 15));
    let mut data = Everything::new();
    data.add_item(Item::Modifier, "idea_bonus");
    let mut sink: Vec<LogReport> = Vec::new();
    let mut vd = Validator::new(&block, &data);
    vd.field_item("modifier", Item::Modifier, &mut sink);
    vd.field_item("soundeffect", Item::Sound, &mut sink);
    vd.finish(&mut sink);
    assert_eq!(sink.len(), 1);
    assert_eq!(sink[0].key, ErrorKey::MissingItem);
    assert_eq!(sink[0].pointers[0].location, at(3, 15));
}

#[test]
fn registry_lookup() {
    let mut data = Everything::new();
    assert!(!data.item_exists(Item::Trait, "brave"));
    data.add_item(Item::Trait, "brave");
    assert!(data.item_exists(Item::Trait, "brave"));
    assert!(!data.item_exists(Item::Law, "brave"));
    assert!(!data.item_exists(Item::Trait, "Brave"));
}
