use tiger::block::Block;
use tiger::context::ScopeContext;
use tiger::effect::validate_effect;
use tiger::everything::Everything;
use tiger::item::Item;
use tiger::report::{ErrorKey, LogReport, Severity};
use tiger::scopes::{Scopes, CHARACTER, NONE, PROVINCE};
use tiger::token::{Loc, Token};
use tiger::trigger::{validate_trigger, Tooltipped};

fn at(line: u32) -> Loc {
    Loc { file: 0, line, column: 1 }
}

fn tok(s: &str, line: u32) -> Token {
    Token::new(s, at(line))
}

fn keys(sink: &[LogReport]) -> Vec<(ErrorKey, Severity, u32)> {
    sink.iter().map(|r| (r.key, r.severity, r.pointers[0].location.line)).collect()
}

fn character() -> ScopeContext {
    ScopeContext::new(Scopes::from_bits_truncate(CHARACTER))
}

#[test]
fn triggers_of_every_shape() {
    let mut data = Everything::new();
    data.add_item(Item::Trait, "brave");
    let mut inner = Block::new(at(5));
    inner.add_value(tok("is_alive", 6), tok("yes", 6));
    inner.add_value(tok("age", 7), tok("16", 7));
    let mut block = Block::new(at(0));
    block.add_value(tok("always", 1), tok("no", 1));
    block.add_value(tok("has_trait", 2), tok("brave", 2));
    block.add_value(tok("is_spouse_of", 3), tok("root", 3));
    block.add_value(tok("GOLD", 4), tok("-1.5", 4));
    block.add_block(tok("or", 5), inner);
    let mut sink: Vec<LogReport> = Vec::new();
    validate_trigger(&block, &data, &character(), Tooltipped::Yes, &mut sink);
    assert!(sink.is_empty());
}

#[test]
fn trigger_errors() {
    let data = Everything::new();
    let mut block = Block::new(at(0));
    block.add_value(tok("always", 1), tok("maybe", 1));
    block.add_value(tok("has_trait", 2), tok("craven", 2));
    block.add_value(tok("is_spouse_of", 3), tok("nobody", 3));
    block.add_value(tok("age", 4), tok("old", 4));
    block.add_value(tok("not", 5), tok("yes", 5));
    block.add_value(tok("nonexistent_trigger", 6), tok("yes", 6));
    let mut sink: Vec<LogReport> = Vec::new();
    validate_trigger(&block, &data, &character(), Tooltipped::No, &mut sink);
    assert_eq!(
        keys(&sink),
        vec![
            (ErrorKey::Validation, Severity::Error, 1),
            (ErrorKey::MissingItem, Severity::Error, 2),
            (ErrorKey::Validation, Severity::Error, 3),
            (ErrorKey::Validation, Severity::Error, 4),
            (ErrorKey::Validation, Severity::Error, 5),
            (ErrorKey::UnknownIdentifier, Severity::Warning, 6),
        ]
    );
}

#[test]
fn trigger_scope_mismatch() {
    let data = Everything::new();
    let mut block = Block::new(at(0));
    block.add_value(tok("is_alive", 1), tok("yes", 1));
    block.add_value(tok("always", 2), tok("yes", 2));
    let mut sink: Vec<LogReport> = Vec::new();
    let sc = ScopeContext::new(Scopes::from_bits_truncate(PROVINCE));
    validate_trigger(&block, &data, &sc, Tooltipped::No, &mut sink);
    assert_eq!(keys(&sink), vec![(ErrorKey::Scopes, Severity::Warning, 1)]);
    let mut sink: Vec<LogReport> = Vec::new();
    let scopeless = ScopeContext::new(Scopes::from_bits_truncate(NONE));
    validate_trigger(&block, &data, &scopeless, Tooltipped::No, &mut sink);
    assert_eq!(
        keys(&sink),
        vec![(ErrorKey::Scopes, Severity::Warning, 1), (ErrorKey::Scopes, Severity::Warning, 2)]
    );
}

#[test]
fn effects_of_scalar_shapes() {
    let mut data = Everything::new();
    data.add_item(Item::Trait, "brave");
    let mut block = Block::new(at(0));
    block.add_value(tok("add_gold", 1), tok("-5", 1));
    block.add_value(tok("add_trait", 2), tok("brave", 2));
    block.add_value(tok("banish", 3), tok("no", 3));
    block.add_value(tok("add_courtier", 4), tok("this", 4));
    block.add_value(tok("add_trait", 5), tok("craven", 5));
    block.add_value(tok("add_piety", 6), tok("some_value", 6));
    block.add_value(tok("make_unknown", 7), tok("yes", 7));
    let mut sink: Vec<LogReport> = Vec::new();
    let mut sc = character();
    validate_effect(&block, &data, &mut sc, Tooltipped::No, &mut sink);
    assert_eq!(
        keys(&sink),
        vec![
            (ErrorKey::Validation, Severity::Warning, 1),
            (ErrorKey::Validation, Severity::Error, 3),
            (ErrorKey::MissingItem, Severity::Error, 5),
            (ErrorKey::UnknownIdentifier, Severity::Warning, 7),
        ]
    );
}

#[test]
fn if_chain_structure() {
    let data = Everything::new();
    let mut limit = Block::new(at(1));
    limit.add_value(tok("always", 1), tok("yes", 1));
    let mut if_body = Block::new(at(1));
    if_body.add_block(tok("limit", 1), limit);
    let mut block = Block::new(at(0));
    block.add_block(tok("if", 1), if_body);
    block.add_block(tok("else_if", 2), Block::new(at(2)));
    block.add_block(tok("else", 3), Block::new(at(3)));
    block.add_block(tok("else", 4), Block::new(at(4)));
    block.add_block(tok("else_if", 5), Block::new(at(5)));
    let mut sink: Vec<LogReport> = Vec::new();
    let mut sc = character();
    validate_effect(&block, &data, &mut sc, Tooltipped::No, &mut sink);
    assert_eq!(
        keys(&sink),
        vec![(ErrorKey::Structure, Severity::Error, 4), (ErrorKey::Structure, Severity::Error, 5)]
    );
}

#[test]
fn random_list_weights_and_switch() {
    let data = Everything::new();
    let mut list = Block::new(at(1));
    list.add_block(tok("ten", 2), Block::new(at(2)));
    list.add_value(tok("20", 3), tok("yes", 3));
    let mut cases = Block::new(at(4));
    cases.add_value(tok("trigger", 4), tok("has_trait", 4));
    cases.add_block(tok("brave", 5), Block::new(at(5)));
    let mut block = Block::new(at(0));
    block.add_block(tok("random_list", 1), list);
    block.add_block(tok("switch", 4), cases);
    let mut sink: Vec<LogReport> = Vec::new();
    let mut sc = character();
    validate_effect(&block, &data, &mut sc, Tooltipped::No, &mut sink);
    assert_eq!(
        keys(&sink),
        vec![(ErrorKey::Validation, Severity::Error, 2), (ErrorKey::Validation, Severity::Error, 3)]
    );
}

#[test]
fn tooltip_and_hidden_bodies_share_the_context() {
    let data = Everything::new();
    let mut hidden = Block::new(at(1));
    hidden.add_value(tok("save_scope_as", 1), tok("kept", 1));
    let mut block = Block::new(at(0));
    block.add_block(tok("hidden_effect", 1), hidden);
    block.add_value(tok("custom_tooltip", 2), tok("some_loc_key", 2));
    let mut sink: Vec<LogReport> = Vec::new();
    let mut sc = character();
    validate_effect(&block, &data, &mut sc, Tooltipped::No, &mut sink);
    assert!(sink.is_empty());
    assert!(sc.named("kept").is_some());
}

#[test]
fn structured_arguments() {
    let mut data = Everything::new();
    data.add_item(Item::Secret, "secret_murder");
    let mut args = Block::new(at(1));
    args.add_value(tok("type", 1), tok("secret_murder", 1));
    args.add_value(tok("target", 2), tok("prev", 2));
    args.add_value(tok("extra", 3), tok("1", 3));
    let mut change = Block::new(at(4));
    change.add_value(tok("change", 4), tok("root", 4));
    let mut amenity = Block::new(at(5));
    amenity.add_value(tok("type", 5), tok("food", 5));
    amenity.add_block(tok("value", 6), Block::new(at(6)));
    let mut block = Block::new(at(0));
    block.add_block(tok("add_secret", 1), args);
    block.add_block(tok("becomes_independent", 4), change);
    block.add_block(tok("add_amenity_level", 5), amenity);
    block.add_value(tok("add_secret", 7), tok("yes", 7));
    let mut sink: Vec<LogReport> = Vec::new();
    let mut sc = character();
    validate_effect(&block, &data, &mut sc, Tooltipped::No, &mut sink);
    assert_eq!(
        keys(&sink),
        vec![
            (ErrorKey::UnknownField, Severity::Error, 3),
            (ErrorKey::Scopes, Severity::Warning, 4),
            (ErrorKey::MissingItem, Severity::Error, 5),
            (ErrorKey::Validation, Severity::Error, 7),
        ]
    );
}

#[test]
fn scope_shaped_fields_open_a_block_in_that_scope() {
    let data = Everything::new();
    let mut inner = Block::new(at(1));
    inner.add_value(tok("add_gold", 2), tok("5", 2));
    inner.add_value(tok("save_scope_as", 3), tok("inner", 3));
    let mut block = Block::new(at(0));
    block.add_block(tok("add_courtier", 1), inner);
    let mut sink: Vec<LogReport> = Vec::new();
    let mut sc = ScopeContext::new(Scopes::from_bits_truncate(PROVINCE));
    validate_effect(&block, &data, &mut sc, Tooltipped::No, &mut sink);
    assert_eq!(keys(&sink), vec![(ErrorKey::Scopes, Severity::Warning, 1)]);
    assert_eq!(sc.named("inner"), None);

    let mut spouse = Block::new(at(4));
    spouse.add_value(tok("is_alive", 5), tok("yes", 5));
    let mut triggers = Block::new(at(0));
    triggers.add_block(tok("is_spouse_of", 4), spouse);
    let mut sink: Vec<LogReport> = Vec::new();
    validate_trigger(&triggers, &data, &sc, Tooltipped::No, &mut sink);
    assert_eq!(keys(&sink), vec![(ErrorKey::Scopes, Severity::Warning, 4)]);
}

#[test]
fn opened_scope_sets_this_and_prev() {
    let character = Scopes::from_bits_truncate(CHARACTER);
    let province = Scopes::from_bits_truncate(PROVINCE);
    let sc = ScopeContext::new(province);
    let inner = sc.open_scope(character);
    assert_eq!(inner.this(), character);
    assert_eq!(inner.prev(), province);
    assert_eq!(inner.root(), province);
    assert_eq!(sc.this(), province);
}
