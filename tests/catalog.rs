use tiger::everything::Everything;
use tiger::item::Item;
use tiger::report::{ErrorKey, LogReport, Severity};
use tiger::scopes::{Scopes, ALL_BUT_NONE, CHARACTER, NONE, PROVINCE};
use tiger::tables::effects::{effect_table, scope_effect, scope_effect_lowered, ControlEffect, Effect, SpecialEffect};
use tiger::tables::lookup_static;
use tiger::tables::triggers::{trigger_table, Trigger};
use tiger::trigger::{scope_trigger, scope_trigger_lowered};
use tiger::token::{Loc, Token};

fn tok(s: &str) -> Token {
    Token::new(s, Loc { file: 1, line: 4, column: 9 })
}

#[test]
fn every_catalog_entry_resolves_to_itself_in_any_case() {
    let data = Everything::new();
    let table = effect_table();
    for (i, (from, name, effect)) in table.iter().copied().enumerate() {
        // A name listed twice resolves to its first entry.
        if table[..i].iter().any(|e| e.1 == name) {
            continue;
        }
        let mut sink: Vec<LogReport> = Vec::new();
        let upper = name.to_uppercase();
        let got = scope_effect(&tok(&upper), &data, &mut sink);
        assert_eq!(got, Some((Scopes::from_bits_truncate(from), effect)), "{}", name);
        let got = scope_effect(&tok(name), &data, &mut sink);
        assert_eq!(got, Some((Scopes::from_bits_truncate(from), effect)), "{}", name);
        assert!(sink.is_empty());
    }
}

#[test]
fn exact_match_wins_over_family() {
    // "add_piety_experience" is no family member, but a catalog entry that
    // looks like one must come from the catalog.
    let mut data = Everything::with_catalogs(
        vec![(PROVINCE, "add_martial_xp", Effect::Yes)],
        trigger_table(),
    );
    data.add_item(Item::Lifestyle, "martial");
    let mut sink: Vec<LogReport> = Vec::new();
    let got = scope_effect(&tok("Add_Martial_XP"), &data, &mut sink);
    assert_eq!(got, Some((Scopes::from_bits_truncate(PROVINCE), Effect::Yes)));
    assert!(sink.is_empty());
    let empty = Everything::with_catalogs(vec![(PROVINCE, "add_martial_xp", Effect::Yes)], vec![]);
    let got = scope_effect(&tok("add_martial_xp"), &empty, &mut sink);
    assert_eq!(got, Some((Scopes::from_bits_truncate(PROVINCE), Effect::Yes)));
    assert!(sink.is_empty());
}

#[test]
fn perk_points_family_with_known_lifestyle() {
    let mut data = Everything::new();
    data.add_item(Item::Lifestyle, "diplomacy");
    let mut sink: Vec<LogReport> = Vec::new();
    let got = scope_effect(&tok("add_diplomacy_perk_points"), &data, &mut sink);
    assert_eq!(got, Some((Scopes::from_bits_truncate(CHARACTER), Effect::Integer)));
    assert!(sink.is_empty());
}

#[test]
fn perk_points_family_with_unknown_lifestyle() {
    let data = Everything::new();
    let mut sink: Vec<LogReport> = Vec::new();
    let name = tok("add_diplomacy_perk_points");
    let got = scope_effect(&name, &data, &mut sink);
    assert_eq!(got, Some((Scopes::from_bits_truncate(CHARACTER), Effect::Integer)));
    assert_eq!(sink.len(), 1);
    assert_eq!(sink[0].key, ErrorKey::MissingItem);
    assert_eq!(sink[0].severity, Severity::Error);
    assert_eq!(sink[0].pointers.len(), 1);
    assert_eq!(sink[0].pointers[0].location, name.loc);
    assert!(sink[0].msg.ends_with("diplomacy"));
}

#[test]
fn xp_and_relation_families() {
    let mut data = Everything::new();
    data.add_item(Item::Lifestyle, "learning");
    data.add_item(Item::Relation, "rival");
    let mut sink: Vec<LogReport> = Vec::new();
    let character = Scopes::from_bits_truncate(CHARACTER);
    assert_eq!(scope_effect(&tok("ADD_LEARNING_XP"), &data, &mut sink), Some((character, Effect::Value)));
    assert_eq!(
        scope_effect(&tok("set_relation_rival"), &data, &mut sink),
        Some((character, Effect::Special(SpecialEffect::SetRelation)))
    );
    assert_eq!(
        scope_effect(&tok("remove_relation_rival"), &data, &mut sink),
        Some((character, Effect::Scope(character)))
    );
    assert!(sink.is_empty());
    assert_eq!(
        scope_effect(&tok("remove_relation_friend"), &data, &mut sink),
        Some((character, Effect::Scope(character)))
    );
    assert_eq!(sink.len(), 1);
    assert_eq!(sink[0].key, ErrorKey::MissingItem);
}

#[test]
fn suffix_without_prefix_is_unknown() {
    let data = Everything::new();
    let mut sink: Vec<LogReport> = Vec::new();
    assert_eq!(scope_effect(&tok("gain_diplomacy_perk_points"), &data, &mut sink), None);
    assert_eq!(scope_effect(&tok("nonexistent_effect"), &data, &mut sink), None);
    assert!(sink.is_empty());
}

#[test]
fn lowered_lookup_takes_the_name_as_given() {
    let data = Everything::new();
    let mut sink: Vec<LogReport> = Vec::new();
    assert_eq!(
        scope_effect_lowered("if", &tok("IF"), &data, &mut sink),
        Some((Scopes::from_bits_truncate(NONE), Effect::Control(ControlEffect::If)))
    );
    assert_eq!(scope_effect_lowered("IF", &tok("IF"), &data, &mut sink), None);
    assert_eq!(
        scope_effect_lowered("add_to_list", &tok("add_to_list"), &data, &mut sink),
        Some((Scopes::from_bits_truncate(ALL_BUT_NONE), Effect::Unchecked))
    );
    assert_eq!(
        scope_effect_lowered("add_gold", &tok("add_gold"), &data, &mut sink),
        Some((Scopes::from_bits_truncate(CHARACTER), Effect::NonNegativeValue))
    );
}

#[test]
fn trigger_lookup() {
    let data = Everything::new();
    assert_eq!(
        scope_trigger(&tok("Always"), &data),
        Some((Scopes::from_bits_truncate(ALL_BUT_NONE), Trigger::Boolean))
    );
    assert_eq!(scope_trigger_lowered("always", &data), Some((Scopes::from_bits_truncate(ALL_BUT_NONE), Trigger::Boolean)));
    assert_eq!(scope_trigger(&tok("nonexistent_trigger"), &data), None);
}

#[test]
fn first_entry_of_a_name_wins() {
    let cat = vec![(CHARACTER, "x", 1u8), (PROVINCE, "x", 2u8), (NONE, "y", 3u8)];
    assert_eq!(lookup_static(&cat, "x"), Some((Scopes::from_bits_truncate(CHARACTER), 1u8)));
    assert_eq!(lookup_static(&cat, "y"), Some((Scopes::from_bits_truncate(NONE), 3u8)));
    assert_eq!(lookup_static(&cat, "z"), None);
}
