use tiger::block::Block;
use tiger::context::ScopeContext;
use tiger::effect::validate_effect;
use tiger::everything::Everything;
use tiger::report::{ErrorKey, LogReport, Severity};
use tiger::scopes::{Scopes, CHARACTER, PROVINCE};
use tiger::token::{Loc, Token};
use tiger::trigger::Tooltipped;

fn at(line: u32) -> Loc {
    Loc { file: 0, line, column: 1 }
}

fn tok(s: &str, line: u32) -> Token {
    Token::new(s, at(line))
}

#[test]
fn forks_are_independent() {
    let character = Scopes::from_bits_truncate(CHARACTER);
    let province = Scopes::from_bits_truncate(PROVINCE);
    let mut parent = ScopeContext::new(character);
    parent.save("home", province);
    let mut a = parent.fork();
    let b = parent.fork();
    a.save("target", character);
    a.save("home", character);
    assert_eq!(a.named("target"), Some(character));
    assert_eq!(a.named("home"), Some(character));
    assert_eq!(b.named("target"), None);
    assert_eq!(b.named("home"), Some(province));
    assert_eq!(parent.named("target"), None);
    assert_eq!(parent.named("home"), Some(province));
    assert_eq!(parent.this(), character);
    assert_eq!(parent.root(), character);
    assert_eq!(parent.prev(), character);
}

/// `random_list = { 10 = { save_scope_as = x } 20 = { add_courtier = scope:x } }`
fn random_list_block() -> Block {
    let mut first = Block::new(at(2));
    first.add_value(tok("save_scope_as", 2), tok("x", 2));
    let mut second = Block::new(at(3));
    second.add_value(tok("add_courtier", 3), tok("scope:x", 3));
    let mut list = Block::new(at(1));
    list.add_block(tok("10", 2), first);
    list.add_block(tok("20", 3), second);
    let mut outer = Block::new(at(0));
    outer.add_block(tok("random_list", 1), list);
    outer
}

#[test]
fn branches_leave_the_parent_unchanged() {
    let data = Everything::new();
    let mut sc = ScopeContext::new(Scopes::from_bits_truncate(PROVINCE));
    let mut sink: Vec<LogReport> = Vec::new();
    validate_effect(&random_list_block(), &data, &mut sc, Tooltipped::No, &mut sink);
    assert_eq!(sc.named("x"), None);
    // add_courtier needs a character; here the scope is a province.
    assert_eq!(sink.len(), 1);
    assert_eq!(sink[0].key, ErrorKey::Scopes);
    assert_eq!(sink[0].pointers[0].location, at(3));
}

#[test]
fn saved_scope_is_seen_by_later_siblings_only_outside_branches() {
    let data = Everything::new();
    let character = Scopes::from_bits_truncate(CHARACTER);
    let mut block = Block::new(at(0));
    block.add_value(tok("save_scope_as", 1), tok("me", 1));
    block.add_value(tok("add_courtier", 2), tok("scope:me", 2));
    let mut sc = ScopeContext::new(character);
    let mut sink: Vec<LogReport> = Vec::new();
    validate_effect(&block, &data, &mut sc, Tooltipped::No, &mut sink);
    assert!(sink.is_empty());
    assert_eq!(sc.named("me"), Some(character));
}

#[test]
fn wrong_kind_of_saved_scope() {
    let data = Everything::new();
    let mut block = Block::new(at(0));
    block.add_value(tok("add_courtier", 1), tok("scope:home", 1));
    let mut sc = ScopeContext::new(Scopes::from_bits_truncate(CHARACTER));
    sc.save("home", Scopes::from_bits_truncate(PROVINCE));
    let mut sink: Vec<LogReport> = Vec::new();
    validate_effect(&block, &data, &mut sc, Tooltipped::No, &mut sink);
    assert_eq!(sink.len(), 1);
    assert_eq!(sink[0].key, ErrorKey::Scopes);
    assert_eq!(sink[0].severity, Severity::Warning);
}
