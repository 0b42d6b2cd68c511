//! The effect catalog: each entry gives the scopes an effect needs, its name,
//! and the shape of its argument.
use vstd::prelude::*;

use crate::everything::{missing_key, missing_reported, Everything};
use crate::item::Item;
use crate::report::Sink;
use crate::scopes::{
    Scopes, ACTIVITY, ALL_BUT_NONE, ARMY, ARTIFACT, CASUS_BELLI, CHARACTER, CHARACTER_MEMORY,
    COMBAT_SIDE, CULTURE, DYNASTY, DYNASTY_HOUSE, FACTION, FAITH, GREAT_HOLY_WAR, HOLY_ORDER,
    INSPIRATION, LANDED_TITLE, NONE, PROVINCE, SCHEME, SECRET, STORY_CYCLE, STRUGGLE,
    TITLE_AND_VASSAL_CHANGE, WAR,
};
use crate::tables::{first_match, in_catalog, lookup_static, static_entry};
use crate::text::{lower_of, lowercase, strip_both, strip_front, strip_prefix, strip_suffix};
use crate::token::Token;

verus! {

/// Effects whose argument is a block of further effects, handled by the validator itself.
#[derive(Copy, Clone, Debug, Eq, PartialEq, Structural)]
pub enum ControlEffect {
    CustomDescription,
    CustomTooltip,
    Else,
    If,
    InterfaceMessage,
    HiddenEffect,
    Random,
    RandomList,
    ShowAsTooltip,
    Switch,
    While,
}

/// Effects with a grammar of their own.
#[derive(Copy, Clone, Debug, Eq, PartialEq, Structural)]
pub enum SpecialEffect {
    ActivateCatalyst,
    ArtifactHistory,
    ArtifactTitleHistory,
    AddCharacterFlag,
    AddModifier,
    AddFromContribution,
    AddHook,
    AddOpinion,
    AddRandomInnovation,
    RelationFlag,
    AddSchemeCooldown,
    AddToList,
    AddTruce,
    AssignCouncilTask,
    AssignCouncillor,
    BattleEvent,
    CreateHolding,
    CulturalAcceptance,
    ChangeName,
    ChangeVariable,
    ClampVariable,
    ChangeLiege,
    ChangeTitleHolder,
    ChangeTraitRank,
    CloseView,
    CopyLocalizedText,
    CreateAlliance,
    CreateArtifact,
    CreateCharacter,
    CreateMemory,
    CreateTitle,
    CreateHolyOrder,
    CreateInspiration,
    CreateStory,
    CreateTitleChange,
    Death,
    DivideWarChest,
    Duel,
    EndWar,
    FactionStartWar,
    AddToScheme,
    ForceVote,
    Imprison,
    JoinFactionForced,
    MakePregnant,
    MoveBudget,
    OpenInteraction,
    OpenView,
    PayIncome,
    ReforgeArtifact,
    RemoveGuest,
    RemoveOpinion,
    ReplaceCourtPosition,
    RoundVariable,
    RunInteraction,
    SaveOpinion,
    SaveValue,
    SetCoa,
    SetCultureName,
    SetVariable,
    SetGhwTarget,
    SetRelation,
    KnightStatus,
    ArtifactOwner,
    SetTraitRank,
    SetupCb,
    SpawnActivity,
    SpawnArmy,
    StartGhw,
    StartStruggle,
    StartWar,
    Stress,
    TriggerEvent,
    CreateImportantAction,
    CreateSuggestion,
    VassalContractSet,
}

/// The shape of an effect's argument.
#[derive(Copy, Clone, Debug, Eq, PartialEq)]
pub enum Effect {
    /// No special value, just `effect = yes`.
    Yes,
    /// `yes` and `no` are both meaningful.
    Bool,
    Integer,
    /// Probably can be a named script value, possibly can open a script math block.
    Value,
    /// Definitely can be a named script value, probably can open a script math block.
    ScriptValue,
    /// A value that is reported if negative.
    NonNegativeValue,
    Scope(Scopes),
    Item(Item),
    Target(&'static str, Scopes),
    TargetValue(&'static str, Scopes, &'static str),
    ItemTarget(&'static str, Item, &'static str, Scopes),
    ItemValue(&'static str, Item),
    Desc,
    /// male, female or random.
    Gender,
    Special(SpecialEffect),
    Control(ControlEffect),
    /// So special that any argument is accepted.
    Unchecked,
}

/// A catalog entry: the bits of the scopes required, the lowercase name, the shape.
pub type EffectEntry = (u64, &'static str, Effect);

/// The built-in effect catalog, as of game version 1.8.1 (from the game's `effects.log`).
/// Entries whose argument is not understood are `Unchecked`.
pub fn effect_table() -> (r: Vec<EffectEntry>) {
    vec![
        (ACTIVITY, "accept_invitation_for_character", Effect::Scope(Scopes::from_bits_truncate(CHARACTER))),
        (FAITH, "activate_holy_site", Effect::Item(Item::HolySite)),
        (STRUGGLE, "activate_struggle_catalyst", Effect::Special(SpecialEffect::ActivateCatalyst)),
        (CHARACTER, "add_amenity_level", Effect::ItemValue("type", Item::Amenity)),
        (ARTIFACT, "add_artifact_history", Effect::Special(SpecialEffect::ArtifactHistory)),
        (ARTIFACT, "add_artifact_modifier", Effect::Item(Item::Modifier)),
        (ARTIFACT, "add_artifact_title_history", Effect::Special(SpecialEffect::ArtifactTitleHistory)),
        (WAR, "add_attacker", Effect::Scope(Scopes::from_bits_truncate(CHARACTER))),
        (PROVINCE, "add_building", Effect::Item(Item::Building)),
        (PROVINCE, "add_building_slot", Effect::Integer),
        (CHARACTER, "add_character_flag", Effect::Special(SpecialEffect::AddCharacterFlag)),
        (CHARACTER, "add_character_modifier", Effect::Special(SpecialEffect::AddModifier)),
        (LANDED_TITLE, "add_county_modifier", Effect::Special(SpecialEffect::AddModifier)),
        (CHARACTER, "add_courtier", Effect::Scope(Scopes::from_bits_truncate(CHARACTER))),
        (CULTURE, "add_culture_tradition", Effect::Item(Item::Tradition)),
        (WAR, "add_defender", Effect::Scope(Scopes::from_bits_truncate(CHARACTER))),
        (CHARACTER, "add_diplomacy_skill", Effect::Value),
        (FAITH, "add_doctrine", Effect::Item(Item::Doctrine)),
        (CHARACTER, "add_dread", Effect::Value),
        (ARTIFACT, "add_durability", Effect::Value),
        (DYNASTY, "add_dynasty_modifier", Effect::Special(SpecialEffect::AddModifier)),
        (DYNASTY, "add_dynasty_perk", Effect::Item(Item::DynastyPerk)),
        (DYNASTY, "add_dynasty_prestige", Effect::Value),
        (DYNASTY, "add_dynasty_prestige_level", Effect::Value),
        (FACTION, "add_faction_discontent", Effect::Value),
        (CHARACTER, "add_focus_progress", Effect::Value),
        (CASUS_BELLI, "add_from_contribution_attackers", Effect::Special(SpecialEffect::AddFromContribution)),
        (CASUS_BELLI, "add_from_contribution_defenders", Effect::Special(SpecialEffect::AddFromContribution)),
        (CHARACTER, "add_gold", Effect::NonNegativeValue),
        (CHARACTER, "add_hook", Effect::Special(SpecialEffect::AddHook)),
        (CHARACTER, "add_hook_no_toast", Effect::Special(SpecialEffect::AddHook)),
        (DYNASTY_HOUSE, "add_house_artifact_claim", Effect::Scope(Scopes::from_bits_truncate(ARTIFACT))),
        (DYNASTY_HOUSE, "add_house_modifier", Effect::Special(SpecialEffect::AddModifier)),
        (CULTURE, "add_innovation", Effect::Item(Item::Innovation)),
        (NONE, "add_internal_flag", Effect::Unchecked),
        (CHARACTER, "add_intrigue_skill", Effect::Value),
        (CHARACTER, "add_joined_faction_discontent", Effect::Value),
        (CHARACTER, "add_knows_of_killer", Effect::Scope(Scopes::from_bits_truncate(CHARACTER))),
        (CHARACTER, "add_learning_skill", Effect::Value),
        (CHARACTER, "add_long_term_gold", Effect::Value),
        (ARMY, "add_loot", Effect::Value),
        (CHARACTER, "add_martial_skill", Effect::Value),
        (CULTURE, "add_name_list", Effect::Item(Item::NameList)),
        (CHARACTER, "add_opinion", Effect::Special(SpecialEffect::AddOpinion)),
        (CHARACTER, "add_perk", Effect::Item(Item::Perk)),
        (CHARACTER, "add_personal_artifact_claim", Effect::Scope(Scopes::from_bits_truncate(ARTIFACT))),
        (CHARACTER, "add_piety", Effect::ScriptValue),
        (CHARACTER, "add_piety_experience", Effect::Value),
        (CHARACTER, "add_piety_level", Effect::Value),
        (CHARACTER, "add_piety_no_experience", Effect::Value),
        (CHARACTER, "add_pressed_claim", Effect::Scope(Scopes::from_bits_truncate(LANDED_TITLE))),
        (CHARACTER, "add_prestige", Effect::ScriptValue),
        (CHARACTER, "add_prestige_experience", Effect::Value),
        (CHARACTER, "add_prestige_level", Effect::Value),
        (CHARACTER, "add_prestige_no_experience", Effect::Value),
        (PROVINCE, "add_province_modifier", Effect::Special(SpecialEffect::AddModifier)),
        (CHARACTER, "add_prowess_skill", Effect::Value),
        (CULTURE, "add_random_innovation", Effect::Special(SpecialEffect::AddRandomInnovation)),
        (CULTURE, "add_random_valid_tradition", Effect::Scope(Scopes::from_bits_truncate(CHARACTER))),
        (CULTURE, "add_random_valid_tradition_replace_if_necessary", Effect::Scope(Scopes::from_bits_truncate(CHARACTER))),
        (CHARACTER, "add_realm_law", Effect::Item(Item::Law)),
        (CHARACTER, "add_realm_law_skip_effects", Effect::Item(Item::Law)),
        (CHARACTER, "add_relation_flag", Effect::Special(SpecialEffect::RelationFlag)),
        (CHARACTER, "add_reserved_gold", Effect::Value),
        (CHARACTER, "add_scheme_cooldown", Effect::Special(SpecialEffect::AddSchemeCooldown)),
        (SCHEME, "add_scheme_modifier", Effect::Special(SpecialEffect::AddModifier)),
        (SCHEME, "add_scheme_progress", Effect::Value),
        (CHARACTER, "add_secret", Effect::ItemTarget("type", Item::Secret, "target", Scopes::from_bits_truncate(CHARACTER))),
        (SECRET, "add_secret_participant", Effect::Scope(Scopes::from_bits_truncate(CHARACTER))),
        (CHARACTER, "add_short_term_gold", Effect::Value),
        (PROVINCE, "add_special_building", Effect::Item(Item::SpecialBuilding)),
        (PROVINCE, "add_special_building_slot", Effect::Item(Item::SpecialBuilding)),
        (CHARACTER, "add_stewardship_skill", Effect::Value),
        (CHARACTER, "add_stress", Effect::Value),
        (CHARACTER, "add_targeting_factions_discontent", Effect::Value),
        (LANDED_TITLE, "add_title_law", Effect::Item(Item::Law)),
        (LANDED_TITLE, "add_title_law_effects", Effect::Item(Item::Law)),
        (NONE, "add_to_global_variable_list", Effect::Special(SpecialEffect::AddToList)),
        (ALL_BUT_NONE, "add_to_list", Effect::Unchecked),
        (NONE, "add_to_local_variable_list", Effect::Special(SpecialEffect::AddToList)),
        (CHARACTER, "add_to_scheme", Effect::Scope(Scopes::from_bits_truncate(SCHEME))),
        (ALL_BUT_NONE, "add_to_temporary_list", Effect::Unchecked),
        (NONE, "add_to_variable_list", Effect::Special(SpecialEffect::AddToList)),
        (CHARACTER, "add_trait", Effect::Item(Item::Trait)),
        (CHARACTER, "add_trait_force_tooltip", Effect::Item(Item::Trait)),
        (CHARACTER, "add_truce_both_ways", Effect::Special(SpecialEffect::AddTruce)),
        (CHARACTER, "add_truce_one_way", Effect::Special(SpecialEffect::AddTruce)),
        (CHARACTER, "add_tyranny", Effect::Value),
        (CHARACTER, "add_unpressed_claim", Effect::Scope(Scopes::from_bits_truncate(LANDED_TITLE))),
        (CHARACTER, "add_visiting_courtier", Effect::Scope(Scopes::from_bits_truncate(CHARACTER))),
        (CHARACTER, "add_war_chest_gold", Effect::Value),
        (CHARACTER, "allow_alliance", Effect::Scope(Scopes::from_bits_truncate(CHARACTER))),
        (CHARACTER, "allow_in_scheme", Effect::Scope(Scopes::from_bits_truncate(SCHEME))),
        (CHARACTER, "apply_ai_vassal_obligation_liege_most_desired", Effect::Yes),
        (CHARACTER, "apply_ai_vassal_obligation_vassal_most_desired", Effect::Yes),
        (CHARACTER, "appoint_court_position", Effect::ItemTarget("court_position", Item::CourtPosition, "recipient", Scopes::from_bits_truncate(CHARACTER))),
        (NONE, "assert_if", Effect::Unchecked),
        (ARMY, "assign_commander", Effect::Scope(Scopes::from_bits_truncate(CHARACTER))),
        (CHARACTER, "assign_council_task", Effect::Special(SpecialEffect::AssignCouncilTask)),
        (CHARACTER, "assign_councillor_type", Effect::Special(SpecialEffect::AssignCouncillor)),
        (CHARACTER, "banish", Effect::Yes),
        (COMBAT_SIDE, "battle_event", Effect::Special(SpecialEffect::BattleEvent)),
        (CHARACTER, "becomes_independent", Effect::Target("change", Scopes::from_bits_truncate(TITLE_AND_VASSAL_CHANGE))),
        (PROVINCE, "begin_create_holding", Effect::Special(SpecialEffect::CreateHolding)),
        (CHARACTER, "break_alliance", Effect::Scope(Scopes::from_bits_truncate(CHARACTER))),
        (CHARACTER, "break_betrothal", Effect::Scope(Scopes::from_bits_truncate(CHARACTER))),
        (CHARACTER, "cancel_truce_both_ways", Effect::Scope(Scopes::from_bits_truncate(CHARACTER))),
        (CHARACTER, "cancel_truce_one_way", Effect::Scope(Scopes::from_bits_truncate(CHARACTER))),
        (CHARACTER, "change_age", Effect::ScriptValue),
        (LANDED_TITLE, "change_county_control", Effect::Value),
        (CULTURE, "change_cultural_acceptance", Effect::Special(SpecialEffect::CulturalAcceptance)),
        (CHARACTER, "change_current_court_grandeur", Effect::Value),
        (CHARACTER, "change_current_weight", Effect::Value),
        (LANDED_TITLE, "change_de_jure_drift_progress", Effect::TargetValue("target", Scopes::from_bits_truncate(LANDED_TITLE), "value")),
        (LANDED_TITLE, "change_development_level", Effect::Value),
        (LANDED_TITLE, "change_development_progress", Effect::Value),
        (LANDED_TITLE, "change_development_progress_with_overflow", Effect::Value),
        (FAITH, "change_fervor", Effect::ScriptValue),
        (CHARACTER, "change_first_name", Effect::Special(SpecialEffect::ChangeName)),
        (NONE, "change_global_variable", Effect::Special(SpecialEffect::ChangeVariable)),
        (CHARACTER, "change_government", Effect::Item(Item::Government)),
        (INSPIRATION, "change_inspiration_progress", Effect::Integer),
        (CHARACTER, "change_liege", Effect::Special(SpecialEffect::ChangeLiege)),
        (NONE, "change_local_variable", Effect::Special(SpecialEffect::ChangeVariable)),
        (CHARACTER, "change_prison_type", Effect::Item(Item::PrisonType)),
        (STRUGGLE, "change_struggle_phase", Effect::Item(Item::StrugglePhase)),
        (CHARACTER, "change_target_weight", Effect::Value),
        (LANDED_TITLE, "change_title_holder", Effect::Special(SpecialEffect::ChangeTitleHolder)),
        (LANDED_TITLE, "change_title_holder_include_vassals", Effect::Special(SpecialEffect::ChangeTitleHolder)),
        (CHARACTER, "change_trait_rank", Effect::Special(SpecialEffect::ChangeTraitRank)),
        (NONE, "change_variable", Effect::Special(SpecialEffect::ChangeVariable)),
        (GREAT_HOLY_WAR, "change_war_chest_gold", Effect::ScriptValue),
        (GREAT_HOLY_WAR, "change_war_chest_piety", Effect::ScriptValue),
        (GREAT_HOLY_WAR, "change_war_chest_prestige", Effect::ScriptValue),
        (NONE, "clamp_global_variable", Effect::Special(SpecialEffect::ClampVariable)),
        (NONE, "clamp_local_variable", Effect::Special(SpecialEffect::ClampVariable)),
        (NONE, "clamp_variable", Effect::Special(SpecialEffect::ClampVariable)),
        (ARTIFACT, "clear_artifact_modifiers", Effect::Yes),
        (WAR, "clear_claimant", Effect::Yes),
        (CULTURE, "clear_culture_traditions", Effect::Yes),
        (CHARACTER, "clear_forced_vote", Effect::Yes),
        (NONE, "clear_global_variable_list", Effect::Unchecked),
        (NONE, "clear_local_variable_list", Effect::Unchecked),
        (NONE, "clear_saved_scope", Effect::Unchecked),
        (LANDED_TITLE, "clear_title_laws", Effect::Yes),
        (LANDED_TITLE, "clear_title_laws_effects", Effect::Yes),
        (CHARACTER, "clear_traits", Effect::Yes),
        (NONE, "clear_variable_list", Effect::Unchecked),
        (NONE, "close_all_views", Effect::Yes),
        (NONE, "close_view", Effect::Special(SpecialEffect::CloseView)),
        (ACTIVITY, "complete_activity", Effect::Bool),
        (CHARACTER, "consume_banish_reasons", Effect::Scope(Scopes::from_bits_truncate(CHARACTER))),
        (CHARACTER, "consume_divorce_reasons", Effect::Scope(Scopes::from_bits_truncate(CHARACTER))),
        (CHARACTER, "consume_execute_reasons", Effect::Scope(Scopes::from_bits_truncate(CHARACTER))),
        (CHARACTER, "consume_imprisonment_reasons", Effect::Scope(Scopes::from_bits_truncate(CHARACTER))),
        (CHARACTER, "consume_revoke_title_reason", Effect::Scope(Scopes::from_bits_truncate(CHARACTER))),
        (CULTURE, "copy_all_traditions_from", Effect::Scope(Scopes::from_bits_truncate(CULTURE))),
        (ARTIFACT, "copy_artifact_modifiers", Effect::Scope(Scopes::from_bits_truncate(ARTIFACT))),
        (CHARACTER, "copy_inheritable_appearance_from", Effect::Scope(Scopes::from_bits_truncate(CHARACTER))),
        (CHARACTER, "copy_localized_text", Effect::Special(SpecialEffect::CopyLocalizedText)),
        (LANDED_TITLE, "copy_title_history", Effect::Scope(Scopes::from_bits_truncate(LANDED_TITLE))),
        (CHARACTER, "copy_traits", Effect::Scope(Scopes::from_bits_truncate(CHARACTER))),
        (CHARACTER, "create_alliance", Effect::Special(SpecialEffect::CreateAlliance)),
        (CHARACTER, "create_artifact", Effect::Special(SpecialEffect::CreateArtifact)),
        (CHARACTER, "create_betrothal", Effect::Scope(Scopes::from_bits_truncate(CHARACTER))),
        (CHARACTER, "create_betrothal_matrilineal", Effect::Scope(Scopes::from_bits_truncate(CHARACTER))),
        (CHARACTER, "create_cadet_branch", Effect::Yes),
        (NONE, "create_character", Effect::Special(SpecialEffect::CreateCharacter)),
        (CHARACTER, "create_character_memory", Effect::Special(SpecialEffect::CreateMemory)),
        (CHARACTER, "create_divergent_culture", Effect::Yes),
        (CHARACTER, "create_divergent_culture_with_side_effects", Effect::Yes),
        (CHARACTER, "create_divergent_culture_with_side_effects_excluding_cost", Effect::Yes),
        (NONE, "create_dynamic_title", Effect::Special(SpecialEffect::CreateTitle)),
        (CHARACTER, "create_faction", Effect::ItemTarget("type", Item::Faction, "target", Scopes::from_bits_truncate(CHARACTER))),
        (NONE, "create_holy_order", Effect::Special(SpecialEffect::CreateHolyOrder)),
        (CHARACTER, "create_hybrid_culture", Effect::Scope(Scopes::from_bits_truncate(CULTURE))),
        (CHARACTER, "create_hybrid_culture_with_side_effects", Effect::Scope(Scopes::from_bits_truncate(CULTURE))),
        (CHARACTER, "create_inspiration", Effect::Special(SpecialEffect::CreateInspiration)),
        (CHARACTER, "create_story", Effect::Special(SpecialEffect::CreateStory)),
        (NONE, "create_title_and_vassal_change", Effect::Special(SpecialEffect::CreateTitleChange)),
        (NONE, "custom_description", Effect::Control(ControlEffect::CustomDescription)),
        (NONE, "custom_description_no_bullet", Effect::Control(ControlEffect::CustomDescription)),
        (NONE, "custom_label", Effect::Control(ControlEffect::CustomTooltip)),
        (NONE, "custom_tooltip", Effect::Control(ControlEffect::CustomTooltip)),
        (FAITH, "deactivate_holy_site", Effect::Item(Item::HolySite)),
        (CHARACTER, "death", Effect::Special(SpecialEffect::Death)),
        (NONE, "debug_log", Effect::Unchecked),
        (NONE, "debug_log_date", Effect::Yes),
        (NONE, "debug_log_scopes", Effect::Bool),
        (NONE, "debug_trigger_event", Effect::Item(Item::Event)),
        (ACTIVITY, "decline_invitation_for_character", Effect::Scope(Scopes::from_bits_truncate(CHARACTER))),
        (CHARACTER, "depose", Effect::Yes),
        (NONE, "destroy_artifact", Effect::Scope(Scopes::from_bits_truncate(ARTIFACT))),
        (NONE, "destroy_character_memory", Effect::Scope(Scopes::from_bits_truncate(CHARACTER_MEMORY))),
        (FACTION, "destroy_faction", Effect::Yes),
        (NONE, "destroy_inspiration", Effect::Scope(Scopes::from_bits_truncate(INSPIRATION))),
        (CHARACTER, "destroy_title", Effect::Scope(Scopes::from_bits_truncate(LANDED_TITLE))),
        (SECRET, "disable_exposure_by", Effect::Scope(Scopes::from_bits_truncate(CHARACTER))),
        (GREAT_HOLY_WAR, "divide_war_chest", Effect::Special(SpecialEffect::DivideWarChest)),
        (CHARACTER, "divorce", Effect::Scope(Scopes::from_bits_truncate(CHARACTER))),
        (CHARACTER, "do_ghw_title_handout", Effect::Scope(Scopes::from_bits_truncate(TITLE_AND_VASSAL_CHANGE))),
        (NONE, "duel", Effect::Special(SpecialEffect::Duel)),
        (NONE, "else", Effect::Control(ControlEffect::Else)),
        (NONE, "else_if", Effect::Control(ControlEffect::If)),
        (CHARACTER, "end_inspiration_sponsorship", Effect::Scope(Scopes::from_bits_truncate(INSPIRATION))),
        (CHARACTER, "end_pregnancy", Effect::Yes),
        (SCHEME, "end_scheme", Effect::Yes),
        (STORY_CYCLE, "end_story", Effect::Yes),
        // how this argument is used is not clear
        (STRUGGLE, "end_struggle", Effect::Unchecked),
        (WAR, "end_war", Effect::Special(SpecialEffect::EndWar)),
        (ARTIFACT, "equip_artifact_to_owner", Effect::Yes),
        (ARTIFACT, "equip_artifact_to_owner_replace", Effect::Yes),
        (CHARACTER, "execute_decision", Effect::Item(Item::Decision)),
        (SCHEME, "expose_scheme", Effect::Yes),
        (SCHEME, "expose_scheme_agent", Effect::Scope(Scopes::from_bits_truncate(CHARACTER))),
        (SECRET, "expose_secret", Effect::Scope(Scopes::from_bits_truncate(CHARACTER))),
        (FACTION, "faction_remove_war", Effect::Yes),
        (FACTION, "faction_start_war", Effect::Special(SpecialEffect::FactionStartWar)),
        (CHARACTER, "finish_council_task", Effect::Yes),
        (CHARACTER, "fire_councillor", Effect::Scope(Scopes::from_bits_truncate(CHARACTER))),
        (CHARACTER, "forbid_from_scheme", Effect::Scope(Scopes::from_bits_truncate(SCHEME))),
        (CHARACTER, "force_add_to_scheme", Effect::Special(SpecialEffect::AddToScheme)),
        (CHARACTER, "force_character_skill_recalculation", Effect::Yes),
        (CHARACTER, "force_vote_as", Effect::Special(SpecialEffect::ForceVote)),
        (PROVINCE, "generate_building", Effect::Yes),
        // what the argument to generate_coa means is not clear
        (LANDED_TITLE | DYNASTY | DYNASTY_HOUSE, "generate_coa", Effect::Unchecked),
        (CULTURE, "get_all_innovations_from", Effect::Scope(Scopes::from_bits_truncate(CULTURE))),
        (CULTURE, "get_random_innovation_from", Effect::Scope(Scopes::from_bits_truncate(CULTURE))),
        (CHARACTER, "get_title", Effect::Scope(Scopes::from_bits_truncate(LANDED_TITLE))),
        (CHARACTER, "give_nickname", Effect::Item(Item::Nickname)),
        (NONE, "hidden_effect", Effect::Control(ControlEffect::HiddenEffect)),
        (NONE, "hidden_effect_new_artifact", Effect::Control(ControlEffect::HiddenEffect)),
        (NONE, "if", Effect::Control(ControlEffect::If)),
        (CHARACTER, "imprison", Effect::Special(SpecialEffect::Imprison)),
        (INSPIRATION, "invest_gold", Effect::NonNegativeValue),
        (ACTIVITY, "invite_character_to_activity", Effect::Scope(Scopes::from_bits_truncate(CHARACTER))),
        (CULTURE, "join_era", Effect::Item(Item::CultureEra)),
        (CHARACTER, "join_faction", Effect::Scope(Scopes::from_bits_truncate(FACTION))),
        (CHARACTER, "join_faction_forced", Effect::Special(SpecialEffect::JoinFactionForced)),
        (CHARACTER, "join_faction_skip_check", Effect::Scope(Scopes::from_bits_truncate(FACTION))),
        (CHARACTER, "learn_court_language_of", Effect::Scope(Scopes::from_bits_truncate(CHARACTER))),
        (CHARACTER, "learn_language", Effect::Item(Item::Language)),
        (CHARACTER, "learn_language_of_culture", Effect::Scope(Scopes::from_bits_truncate(CULTURE))),
        (LANDED_TITLE, "lease_out_to", Effect::Scope(Scopes::from_bits_truncate(HOLY_ORDER))),
        (CULTURE, "leave_era", Effect::Item(Item::CultureEra)),
        (CHARACTER, "leave_faction", Effect::Scope(Scopes::from_bits_truncate(FACTION))),
        (COMBAT_SIDE, "lose_combat", Effect::Bool),
        (CHARACTER, "make_claim_strong", Effect::Scope(Scopes::from_bits_truncate(LANDED_TITLE))),
        (CHARACTER, "make_claim_weak", Effect::Scope(Scopes::from_bits_truncate(LANDED_TITLE))),
        (CHARACTER, "make_concubine", Effect::Scope(Scopes::from_bits_truncate(CHARACTER))),
        (CHARACTER, "make_pregnant", Effect::Special(SpecialEffect::MakePregnant)),
        (CHARACTER, "make_pregnant_no_checks", Effect::Special(SpecialEffect::MakePregnant)),
        (STORY_CYCLE, "make_story_owner", Effect::Scope(Scopes::from_bits_truncate(CHARACTER))),
        (CHARACTER, "make_trait_active", Effect::Item(Item::Trait)),
        (CHARACTER, "make_trait_active_force_tooltip", Effect::Item(Item::Trait)),
        (CHARACTER, "make_trait_inactive", Effect::Item(Item::Trait)),
        (CHARACTER, "make_trait_inactive_force_tooltip", Effect::Item(Item::Trait)),
        (CHARACTER, "make_unprunable", Effect::Yes),
        (CHARACTER, "marry", Effect::Scope(Scopes::from_bits_truncate(CHARACTER))),
        (CHARACTER, "marry_matrilineal", Effect::Scope(Scopes::from_bits_truncate(CHARACTER))),
        (ACTIVITY, "move_activity", Effect::Scope(Scopes::from_bits_truncate(PROVINCE))),
        (CHARACTER, "move_budget_gold", Effect::Special(SpecialEffect::MoveBudget)),
        (CHARACTER, "move_to_pool", Effect::Yes),
        (CHARACTER, "move_to_pool_at", Effect::Scope(Scopes::from_bits_truncate(PROVINCE))),
        // multiply_focus_progress is left out: its syntax and effect are not known
        (CHARACTER, "open_appoint_court_position_window", Effect::Item(Item::CourtPosition)),
        (NONE, "open_interaction_window", Effect::Special(SpecialEffect::OpenInteraction)),
        (NONE, "open_view", Effect::Special(SpecialEffect::OpenView)),
        (NONE, "open_view_data", Effect::Special(SpecialEffect::OpenView)),
        (NONE, "pan_camera_to_province", Effect::Scope(Scopes::from_bits_truncate(PROVINCE))),
        (NONE, "pan_camera_to_title", Effect::Scope(Scopes::from_bits_truncate(LANDED_TITLE))),
        (CHARACTER, "pay_long_term_gold", Effect::TargetValue("target", Scopes::from_bits_truncate(CHARACTER), "gold")),
        (CHARACTER, "pay_long_term_income", Effect::Special(SpecialEffect::PayIncome)),
        (CHARACTER, "pay_reserved_gold", Effect::TargetValue("target", Scopes::from_bits_truncate(CHARACTER), "gold")),
        (CHARACTER, "pay_reserved_income", Effect::Special(SpecialEffect::PayIncome)),
        (CHARACTER, "pay_short_term_gold", Effect::TargetValue("target", Scopes::from_bits_truncate(CHARACTER), "gold")),
        (CHARACTER, "pay_short_term_income", Effect::Special(SpecialEffect::PayIncome)),
        (CHARACTER, "pay_war_chest_gold", Effect::TargetValue("target", Scopes::from_bits_truncate(CHARACTER), "gold")),
        (CHARACTER, "pay_war_chest_income", Effect::Special(SpecialEffect::PayIncome)),
        (CHARACTER, "play_music_cue", Effect::Item(Item::Music)),
        (CHARACTER, "play_sound_effect", Effect::Unchecked),
        (GREAT_HOLY_WAR, "pledge_attacker", Effect::Scope(Scopes::from_bits_truncate(CHARACTER))),
        (GREAT_HOLY_WAR, "pledge_defender", Effect::Scope(Scopes::from_bits_truncate(CHARACTER))),
        (NONE, "random", Effect::Control(ControlEffect::Random)),
        (NONE, "random_list", Effect::Control(ControlEffect::RandomList)),
        (NONE, "random_log_scopes", Effect::Bool),
        (CHARACTER, "recruit_courtier", Effect::Scope(Scopes::from_bits_truncate(CHARACTER))),
        (PROVINCE, "refill_garrison", Effect::Yes),
        (PROVINCE, "refill_levy", Effect::Yes),
        (ARTIFACT, "reforge_artifact", Effect::Special(SpecialEffect::ReforgeArtifact)),
        (CHARACTER, "refund_all_perks", Effect::Yes),
        (CHARACTER, "refund_perks", Effect::Item(Item::Lifestyle)),
        (CHARACTER, "release_from_prison", Effect::Yes),
        (CHARACTER, "remove_all_character_modifier_instances", Effect::Item(Item::Modifier)),
        (LANDED_TITLE, "remove_all_county_modifier_instances", Effect::Item(Item::Modifier)),
        (DYNASTY, "remove_all_dynasty_modifier_instances", Effect::Item(Item::Modifier)),
        (DYNASTY_HOUSE, "remove_all_house_modifier_instances", Effect::Item(Item::Modifier)),
        (PROVINCE, "remove_all_province_modifier_instances", Effect::Item(Item::Modifier)),
        (ARTIFACT, "remove_artifact_feature_group", Effect::Item(Item::ArtifactFeatureGroup)),
        (ARTIFACT, "remove_artifact_modifier", Effect::Item(Item::Modifier)),
        (PROVINCE, "remove_building", Effect::Item(Item::Building)),
        (CHARACTER, "remove_character_flag", Effect::Unchecked),
        (CHARACTER, "remove_character_modifier", Effect::Item(Item::Modifier)),
        (CHARACTER, "remove_claim", Effect::Scope(Scopes::from_bits_truncate(LANDED_TITLE))),
        (ARMY, "remove_commanded", Effect::Yes),
        (CHARACTER, "remove_concubine", Effect::Scope(Scopes::from_bits_truncate(CHARACTER))),
        (LANDED_TITLE, "remove_county_modifier", Effect::Item(Item::Modifier)),
        (CHARACTER, "remove_courtier_or_guest", Effect::Special(SpecialEffect::RemoveGuest)),
        (CULTURE, "remove_culture_tradition", Effect::Item(Item::Tradition)),
        (CHARACTER, "remove_decision_cooldown", Effect::Item(Item::Decision)),
        (FAITH, "remove_doctrine", Effect::Item(Item::Doctrine)),
        (DYNASTY, "remove_dynasty_modifier", Effect::Item(Item::Modifier)),
        (DYNASTY, "remove_dynasty_perk", Effect::Item(Item::DynastyPerk)),
        (ALL_BUT_NONE, "remove_from_list", Effect::Unchecked),
        (NONE, "remove_global_variable", Effect::Unchecked),
        (PROVINCE, "remove_holding", Effect::Yes),
        (CHARACTER, "remove_hook", Effect::ItemTarget("type", Item::Hook, "target", Scopes::from_bits_truncate(CHARACTER))),
        (DYNASTY_HOUSE, "remove_house_artifact_claim", Effect::Scope(Scopes::from_bits_truncate(ARTIFACT))),
        (DYNASTY_HOUSE, "remove_house_modifier", Effect::Item(Item::Modifier)),
        (CULTURE, "remove_innovation", Effect::Item(Item::Innovation)),
        (CHARACTER, "remove_interaction_cooldown", Effect::Item(Item::Interaction)),
        (CHARACTER, "remove_interaction_cooldown_against", Effect::ItemTarget("interaction", Item::Interaction, "target", Scopes::from_bits_truncate(CHARACTER))),
        (NONE, "remove_list_global_variable", Effect::Special(SpecialEffect::AddToList)),
        (NONE, "remove_list_local_variable", Effect::Special(SpecialEffect::AddToList)),
        (NONE, "remove_list_variable", Effect::Special(SpecialEffect::AddToList)),
        (NONE, "remove_local_variable", Effect::Unchecked),
        (CHARACTER, "remove_localized_text", Effect::Unchecked),
        (CHARACTER, "remove_long_term_gold", Effect::NonNegativeValue),
        (CHARACTER, "remove_nickname", Effect::Item(Item::Nickname)),
        (CHARACTER, "remove_opinion", Effect::Special(SpecialEffect::RemoveOpinion)),
        (WAR, "remove_participant", Effect::Scope(Scopes::from_bits_truncate(CHARACTER))),
        (CHARACTER, "remove_perk", Effect::Item(Item::Perk)),
        (CHARACTER, "remove_personal_artifact_claim", Effect::Scope(Scopes::from_bits_truncate(ARTIFACT))),
        (PROVINCE, "remove_province_modifier", Effect::Item(Item::Modifier)),
        (CULTURE, "remove_random_culture_tradition", Effect::Yes),
        (CHARACTER, "remove_realm_law", Effect::Item(Item::Law)),
        (CHARACTER, "remove_relation_flag", Effect::Special(SpecialEffect::RelationFlag)),
        (FAITH, "remove_religious_head_title", Effect::Yes),
        (CHARACTER, "remove_reserved_gold", Effect::NonNegativeValue),
        (CHARACTER, "remove_scheme_cooldown_against", Effect::ItemTarget("scheme", Item::Scheme, "target", Scopes::from_bits_truncate(CHARACTER))),
        (SCHEME, "remove_province_modifier", Effect::Item(Item::Modifier)),
        (SECRET, "remove_secret", Effect::Yes),
        (CHARACTER, "remove_short_term_gold", Effect::NonNegativeValue),
        (FACTION, "remove_special_character", Effect::Yes),
        (FACTION, "remove_special_title", Effect::Yes),
        // remove_title_law and remove_title_law_effects are left out: not understood
        (CHARACTER, "remove_trait", Effect::Item(Item::Trait)),
        (CHARACTER, "remove_trait_force_tooltip", Effect::Item(Item::Trait)),
        (NONE, "remove_variable", Effect::Unchecked),
        (CHARACTER, "remove_war_chest_gold", Effect::NonNegativeValue),
        (CHARACTER, "replace_court_position", Effect::Special(SpecialEffect::ReplaceCourtPosition)),
        (CHARACTER, "reset_beneficiary", Effect::Yes),
        (LANDED_TITLE | DYNASTY | DYNASTY_HOUSE, "reset_coa", Effect::Yes),
        (CULTURE, "reset_culture_creation_date", Effect::Yes),
        (GREAT_HOLY_WAR, "reset_designated_winner", Effect::Yes),
        (LANDED_TITLE, "reset_title_name", Effect::Yes),
        (LANDED_TITLE, "reset_title_prefix", Effect::Yes),
        (NONE, "resolve_title_and_vassal_change", Effect::Scope(Scopes::from_bits_truncate(TITLE_AND_VASSAL_CHANGE))),
        (CHARACTER, "return_to_court", Effect::Yes),
        (SECRET, "reveal_to", Effect::Scope(Scopes::from_bits_truncate(CHARACTER))),
        (CHARACTER, "reverse_add_opinion", Effect::Special(SpecialEffect::AddOpinion)),
        // the game's documentation is wrong here; "recipient" is the one who is fired
        (CHARACTER, "revoke_court_position", Effect::ItemTarget("court_position", Item::CourtPosition, "recipient", Scopes::from_bits_truncate(CHARACTER))),
        (LANDED_TITLE, "revoke_lease", Effect::Yes),
        (NONE, "round_global_variable", Effect::Special(SpecialEffect::RoundVariable)),
        (NONE, "round_local_variable", Effect::Special(SpecialEffect::RoundVariable)),
        (NONE, "round_variable", Effect::Special(SpecialEffect::RoundVariable)),
        (NONE, "run_interaction", Effect::Special(SpecialEffect::RunInteraction)),
        (CHARACTER, "save_opinion_value_as", Effect::Special(SpecialEffect::SaveOpinion)),
        (ALL_BUT_NONE, "save_scope_as", Effect::Unchecked),
        (NONE, "save_scope_value_as", Effect::Special(SpecialEffect::SaveValue)),
        (CHARACTER, "save_temporary_opinion_value_as", Effect::Special(SpecialEffect::SaveOpinion)),
        (ALL_BUT_NONE, "save_temporary_scope_as", Effect::Unchecked),
        (NONE, "save_temporary_scope_value_as", Effect::Special(SpecialEffect::SaveValue)),
        (SCHEME, "scheme_freeze_days", Effect::Value),
        (CHARACTER, "send_interface_message", Effect::Control(ControlEffect::InterfaceMessage)),
        (CHARACTER, "send_interface_toast", Effect::Control(ControlEffect::InterfaceMessage)),
        (CHARACTER, "set_absolute_country_control", Effect::Bool),
        (CHARACTER, "set_age", Effect::ScriptValue),
        (LANDED_TITLE, "set_always_follows_primary_heir", Effect::Yes),
        (CHARACTER, "set_amenity_level", Effect::ItemValue("type", Item::Amenity)),
        (ARMY, "set_army_location", Effect::Scope(Scopes::from_bits_truncate(PROVINCE))),
        (ARTIFACT, "set_artifact_description", Effect::Desc),
        (ARTIFACT, "set_artifact_feature", Effect::Item(Item::ArtifactFeature)),
        (ARTIFACT, "set_artifact_feature_group", Effect::Item(Item::ArtifactFeatureGroup)),
        (ARTIFACT, "set_artifact_name", Effect::Desc),
        (ARTIFACT, "set_artifact_rarity", Effect::Item(Item::ArtifactRarity)),
        (CHARACTER, "set_beneficiary", Effect::Scope(Scopes::from_bits_truncate(CHARACTER))),
        (WAR, "set_called_to", Effect::Scope(Scopes::from_bits_truncate(CHARACTER))),
        (LANDED_TITLE, "set_can_be_named_after_dynasty", Effect::Bool),
        (LANDED_TITLE, "set_capital_barony", Effect::Yes),
        (LANDED_TITLE, "set_capital_county", Effect::Scope(Scopes::from_bits_truncate(LANDED_TITLE))),
        (WAR, "set_casus_belli", Effect::Item(Item::CasusBelli)),
        (CHARACTER, "set_character_faith", Effect::Scope(Scopes::from_bits_truncate(FAITH))),
        (CHARACTER, "set_character_faith_history", Effect::Scope(Scopes::from_bits_truncate(FAITH))),
        (CHARACTER, "set_character_faith_with_conversion", Effect::Scope(Scopes::from_bits_truncate(FAITH))),
        (CHARACTER, "set_child_of_concubine_on_pregnancy", Effect::Bool),
        (LANDED_TITLE | DYNASTY | DYNASTY_HOUSE, "set_coa", Effect::Special(SpecialEffect::SetCoa)),
        (LANDED_TITLE, "set_color_from_title", Effect::Scope(Scopes::from_bits_truncate(LANDED_TITLE))),
        (CHARACTER, "set_council_task", Effect::ItemTarget("task_type", Item::CouncilTask, "target", Scopes::from_bits_truncate(CHARACTER))),
        (LANDED_TITLE, "set_county_culture", Effect::Scope(Scopes::from_bits_truncate(CULTURE))),
        (LANDED_TITLE, "set_county_faith", Effect::Scope(Scopes::from_bits_truncate(FAITH))),
        (CHARACTER, "set_court_language", Effect::Item(Item::Language)),
        (CHARACTER, "set_court_type", Effect::Item(Item::CourtType)),
        (CULTURE, "set_cultural_acceptance", Effect::TargetValue("target", Scopes::from_bits_truncate(CULTURE), "value")),
        (CHARACTER, "set_culture", Effect::Scope(Scopes::from_bits_truncate(CULTURE))),
        (STRUGGLE, "set_culture_as_involved", Effect::Scope(Scopes::from_bits_truncate(CULTURE))),
        (STRUGGLE, "set_culture_as_uninvolved", Effect::Scope(Scopes::from_bits_truncate(CULTURE))),
        (CULTURE, "set_culture_name", Effect::Special(SpecialEffect::SetCultureName)),
        (CULTURE, "set_culture_pillar", Effect::Item(Item::CulturePillar)),
        (CHARACTER, "set_culture_same_as", Effect::Scope(Scopes::from_bits_truncate(CHARACTER))),
        (CHARACTER, "set_current_court_grandeur", Effect::Value),
        (LANDED_TITLE, "set_de_jure_liege_title", Effect::Scope(Scopes::from_bits_truncate(LANDED_TITLE))),
        (CHARACTER, "set_death_reason", Effect::Special(SpecialEffect::Death)),
        (CHARACTER, "set_default_education", Effect::Yes),
        (LANDED_TITLE, "set_definitive_form", Effect::Bool),
        (LANDED_TITLE, "set_delete_on_destroy", Effect::Bool),
        (CHARACTER, "set_designated_heir", Effect::Scope(Scopes::from_bits_truncate(CHARACTER))),
        (GREAT_HOLY_WAR, "set_designated_winner", Effect::Scope(Scopes::from_bits_truncate(CHARACTER))),
        (LANDED_TITLE, "set_destroy_if_invalid_heir", Effect::Bool),
        (LANDED_TITLE, "set_destroy_on_gain_same_tier", Effect::Bool),
        (LANDED_TITLE, "set_destroy_on_succession", Effect::Bool),
        (DYNASTY, "set_dynasty_name", Effect::Item(Item::Localization)),
        (CHARACTER, "set_employer", Effect::Scope(Scopes::from_bits_truncate(CHARACTER))),
        (CULTURE, "set_ethos_from", Effect::Scope(Scopes::from_bits_truncate(CULTURE))),
        (STRUGGLE, "set_faith_as_involved", Effect::Scope(Scopes::from_bits_truncate(FAITH))),
        (STRUGGLE, "set_faith_as_uninvolved", Effect::Scope(Scopes::from_bits_truncate(FAITH))),
        (CHARACTER, "set_father", Effect::Scope(Scopes::from_bits_truncate(CHARACTER))),
        (CHARACTER, "set_focus", Effect::Item(Item::EducationFocus)),
        // set_focus_progress is left out: not understood
        (NONE, "set_generated_asexuality_chance", Effect::Value),
        (NONE, "set_generated_bisexuality_chance", Effect::Value),
        (NONE, "set_generated_homosexuality_chance", Effect::Value),
        (NONE, "set_global_variable", Effect::Special(SpecialEffect::SetVariable)),
        (GREAT_HOLY_WAR, "set_great_holy_war_target", Effect::Special(SpecialEffect::SetGhwTarget)),
        (CULTURE, "set_heritage_from", Effect::Scope(Scopes::from_bits_truncate(CULTURE))),
        (PROVINCE, "set_holding_type", Effect::Item(Item::Holding)),
        (CHARACTER, "set_house", Effect::Scope(Scopes::from_bits_truncate(DYNASTY_HOUSE))),
        (DYNASTY_HOUSE, "set_house_name", Effect::Item(Item::Localization)),
        (DYNASTY_HOUSE, "set_house_name_from_dynasty", Effect::Scope(Scopes::from_bits_truncate(DYNASTY))),
        (DYNASTY_HOUSE, "set_house_name_from_house", Effect::Scope(Scopes::from_bits_truncate(DYNASTY_HOUSE))),
        (CHARACTER, "set_immortal_age", Effect::Value),
        (CHARACTER, "set_killer_public", Effect::Bool),
        (CHARACTER, "set_knight_status", Effect::Special(SpecialEffect::KnightStatus)),
        (CHARACTER, "set_known_bastard_on_pregnancy", Effect::Bool),
        (LANDED_TITLE, "set_landless_title", Effect::Bool),
        (CULTURE, "set_language_from", Effect::Scope(Scopes::from_bits_truncate(CULTURE))),
        (NONE, "set_local_variable", Effect::Special(SpecialEffect::SetVariable)),
        (CULTURE, "set_martial_custom_from", Effect::Scope(Scopes::from_bits_truncate(CULTURE))),
        (ARTIFACT, "set_max_durability", Effect::Value),
        (CHARACTER, "set_mother", Effect::Scope(Scopes::from_bits_truncate(CHARACTER))),
        (CULTURE, "set_name_list", Effect::Item(Item::NameList)),
        (LANDED_TITLE, "set_no_automatic_claims", Effect::Yes),
        (CHARACTER, "set_num_pregnancy_children", Effect::Integer),
        (CHARACTER, "set_override_designated_winner", Effect::Bool),
        (ARTIFACT, "set_owner", Effect::Special(SpecialEffect::ArtifactOwner)),
        (CHARACTER, "set_player_character", Effect::Scope(Scopes::from_bits_truncate(CHARACTER))),
        (CHARACTER, "set_pregnancy_assumed_father", Effect::Scope(Scopes::from_bits_truncate(CHARACTER))),
        (CHARACTER, "set_pregnancy_gender", Effect::Gender),
        (CHARACTER, "set_primary_spouse", Effect::Scope(Scopes::from_bits_truncate(CHARACTER))),
        (CHARACTER, "set_primary_title_to", Effect::Scope(Scopes::from_bits_truncate(LANDED_TITLE))),
        (CHARACTER, "set_real_father", Effect::Scope(Scopes::from_bits_truncate(CHARACTER))),
        (CHARACTER, "set_realm_capital", Effect::Scope(Scopes::from_bits_truncate(LANDED_TITLE))),
        (FAITH, "set_religious_head_title", Effect::Scope(Scopes::from_bits_truncate(LANDED_TITLE))),
        (CHARACTER, "set_reserved_gold_maximum", Effect::Value),
        (SECRET, "set_secret_owner", Effect::Scope(Scopes::from_bits_truncate(CHARACTER))),
        (CHARACTER, "set_sexuality", Effect::Item(Item::Sexuality)),
        (ARTIFACT, "set_should_decay", Effect::Bool),
        (FACTION, "set_special_character", Effect::Scope(Scopes::from_bits_truncate(CHARACTER))),
        (FACTION, "set_special_title", Effect::Scope(Scopes::from_bits_truncate(LANDED_TITLE))),
        (LANDED_TITLE, "set_title_name", Effect::Item(Item::Localization)),
        (LANDED_TITLE, "set_title_prefix", Effect::Item(Item::Localization)),
        (CHARACTER, "set_to_lowborn", Effect::Yes),
        (CHARACTER, "set_trait_rank", Effect::Special(SpecialEffect::SetTraitRank)),
        (NONE, "set_variable", Effect::Special(SpecialEffect::SetVariable)),
        (CHARACTER, "set_vassal_contract_modification_blocked", Effect::Bool),
        (GREAT_HOLY_WAR, "set_war_declarer", Effect::Scope(Scopes::from_bits_truncate(CHARACTER))),
        (NONE, "setup_claim_cb", Effect::Special(SpecialEffect::SetupCb)),
        (NONE, "setup_de_jure_cb", Effect::Special(SpecialEffect::SetupCb)),
        (NONE, "setup_invasion_cb", Effect::Special(SpecialEffect::SetupCb)),
        (NONE, "show_as_tooltip", Effect::Control(ControlEffect::ShowAsTooltip)),
        (PROVINCE, "spawn_activity", Effect::Special(SpecialEffect::SpawnActivity)),
        (CHARACTER, "spawn_army", Effect::Special(SpecialEffect::SpawnArmy)),
        (SECRET, "spend_by", Effect::Scope(Scopes::from_bits_truncate(CHARACTER))),
        (CHARACTER, "sponsor_inspiration", Effect::Scope(Scopes::from_bits_truncate(INSPIRATION))),
        (CHARACTER, "start_default_task", Effect::Yes),
        (GREAT_HOLY_WAR, "start_ghw_war", Effect::Item(Item::CasusBelli)),
        (FAITH, "start_great_holy_war", Effect::Special(SpecialEffect::StartGhw)),
        (CHARACTER, "start_scheme", Effect::ItemTarget("type", Item::Scheme, "target", Scopes::from_bits_truncate(CHARACTER))),
        (NONE, "start_struggle", Effect::Special(SpecialEffect::StartStruggle)),
        (NONE, "start_tutorial_lesson", Effect::Unchecked),
        (CHARACTER, "start_war", Effect::Special(SpecialEffect::StartWar)),
        (CHARACTER, "store_localized_text_in_death", Effect::Unchecked),
        (CHARACTER, "stress_impact", Effect::Special(SpecialEffect::Stress)),
        (NONE, "switch", Effect::Control(ControlEffect::Switch)),
        (LANDED_TITLE, "title_create_faction", Effect::ItemTarget("type", Item::Faction, "target", Scopes::from_bits_truncate(CHARACTER))),
        (LANDED_TITLE, "title_join_faction", Effect::Scope(Scopes::from_bits_truncate(FACTION))),
        (LANDED_TITLE, "title_leave_faction", Effect::Scope(Scopes::from_bits_truncate(FACTION))),
        (NONE, "trigger_event", Effect::Special(SpecialEffect::TriggerEvent)),
        (NONE, "try_create_important_action", Effect::Special(SpecialEffect::CreateImportantAction)),
        (NONE, "try_create_suggestion", Effect::Special(SpecialEffect::CreateSuggestion)),
        (ARTIFACT, "unequip_artifact_from_owner", Effect::Yes),
        (CHARACTER, "unlearn_court_language_of", Effect::Scope(Scopes::from_bits_truncate(CHARACTER))),
        (CHARACTER, "unlearn_language", Effect::Item(Item::Language)),
        (CHARACTER, "unlearn_language_of_culture", Effect::Scope(Scopes::from_bits_truncate(CULTURE))),
        (GREAT_HOLY_WAR, "unpledge_attacker", Effect::Scope(Scopes::from_bits_truncate(CHARACTER))),
        (GREAT_HOLY_WAR, "unpledge_defender", Effect::Scope(Scopes::from_bits_truncate(CHARACTER))),
        (LANDED_TITLE, "update_dynamic_coa", Effect::Yes),
        (CHARACTER, "use_hook", Effect::Scope(Scopes::from_bits_truncate(CHARACTER))),
        (CHARACTER, "vassal_contract_decrease_obligation_level", Effect::Item(Item::VassalObligation)),
        (CHARACTER, "vassal_contract_increase_obligation_level", Effect::Item(Item::VassalObligation)),
        (CHARACTER, "vassal_contract_set_obligation_level", Effect::Special(SpecialEffect::VassalContractSet)),
        (CHARACTER, "visit_court_of", Effect::Scope(Scopes::from_bits_truncate(CHARACTER))),
        (NONE, "while", Effect::Control(ControlEffect::While)),
        (COMBAT_SIDE, "win_combat", Effect::Bool),
    ]
}

/// The dynamic-name families, tried in order: for a lowercase name that one of
/// them matches, the registry that its middle fragment must be in, that
/// fragment, and the scopes and shape of the effect.
pub open spec fn effect_family(name: Seq<char>) -> Option<(Item, Seq<char>, Scopes, Effect)> {
    let character = Scopes::spec_from_bits_truncate(CHARACTER);
    if strip_both(name, "add_"@, "_perk_points"@) is Some {
        Some((Item::Lifestyle, strip_both(name, "add_"@, "_perk_points"@)->0, character, Effect::Integer))
    } else if strip_both(name, "add_"@, "_xp"@) is Some {
        Some((Item::Lifestyle, strip_both(name, "add_"@, "_xp"@)->0, character, Effect::Value))
    } else if strip_front(name, "set_relation_"@) is Some {
        Some(
            (
                Item::Relation,
                strip_front(name, "set_relation_"@)->0,
                character,
                Effect::Special(SpecialEffect::SetRelation),
            ),
        )
    } else if strip_front(name, "remove_relation_"@) is Some {
        Some(
            (
                Item::Relation,
                strip_front(name, "remove_relation_"@)->0,
                character,
                Effect::Scope(character),
            ),
        )
    } else {
        None
    }
}

/// What a lowercase effect name resolves to: the first catalog entry of that
/// name, else the dynamic family it matches, else nothing.
pub open spec fn resolve_effect(cat: Seq<EffectEntry>, name: Seq<char>) -> Option<(Scopes, Effect)> {
    if in_catalog(cat, name) {
        Some(static_entry(cat, name))
    } else {
        match effect_family(name) {
            Some((_, _, s, e)) => Some((s, e)),
            None => None,
        }
    }
}

/// The diagnostics that resolving a lowercase name adds: one Error at `loc`
/// when a family matched and its fragment is absent from the registry, else none.
pub open spec fn effect_reports(
    data: Everything,
    name: Seq<char>,
    loc: crate::token::Loc,
    before: Seq<crate::report::LogReport>,
    after: Seq<crate::report::LogReport>,
) -> bool {
    if !in_catalog(data.effect_catalog(), name) && effect_family(name) is Some {
        let (kind, fragment, _, _) = effect_family(name)->0;
        missing_reported(before, after, data.has(kind, fragment), missing_key(kind), loc)
    } else {
        after == before
    }
}

/// Resolves an effect name, given in lowercase as `lwname`, for the token
/// `name`: see `resolve_effect` and `effect_reports`.
pub fn scope_effect_lowered(lwname: &str, name: &Token, data: &Everything, sink: &mut Sink) -> (r:
    Option<(Scopes, Effect)>)
    ensures
        r == resolve_effect(data.effect_catalog(), lwname@),
        effect_reports(*data, lwname@, name.loc, old(sink)@, final(sink)@),
{
    if let Some(found) = lookup_static(data.effects(), lwname) {
        return Some(found);
    }
    if let Some(x) = strip_suffix(lwname, "_perk_points") {
        if let Some(lifestyle) = strip_prefix(x, "add_") {
            assert(lifestyle@ =~= lwname@.subrange("add_"@.len() as int, lwname@.len() - "_perk_points"@.len()));
            data.verify_exists_implied(Item::Lifestyle, lifestyle, name, sink);
            return Some((Scopes::from_bits_truncate(CHARACTER), Effect::Integer));
        }
    }
    if let Some(x) = strip_suffix(lwname, "_xp") {
        if let Some(lifestyle) = strip_prefix(x, "add_") {
            assert(lifestyle@ =~= lwname@.subrange("add_"@.len() as int, lwname@.len() - "_xp"@.len()));
            data.verify_exists_implied(Item::Lifestyle, lifestyle, name, sink);
            return Some((Scopes::from_bits_truncate(CHARACTER), Effect::Value));
        }
    }
    if let Some(relation) = strip_prefix(lwname, "set_relation_") {
        data.verify_exists_implied(Item::Relation, relation, name, sink);
        return Some((Scopes::from_bits_truncate(CHARACTER), Effect::Special(SpecialEffect::SetRelation)));
    }
    if let Some(relation) = strip_prefix(lwname, "remove_relation_") {
        data.verify_exists_implied(Item::Relation, relation, name, sink);
        let character = Scopes::from_bits_truncate(CHARACTER);
        return Some((character, Effect::Scope(character)));
    }
    None
}

/// Resolves the effect named by the token `name`, case-insensitively: see
/// `scope_effect_lowered`.
pub fn scope_effect(name: &Token, data: &Everything, sink: &mut Sink) -> (r: Option<(Scopes, Effect)>)
    ensures
        r == resolve_effect(data.effect_catalog(), lower_of(name.s@)),
        effect_reports(*data, lower_of(name.s@), name.loc, old(sink)@, final(sink)@),
{
    let lwname = lowercase(name.as_str());
    scope_effect_lowered(lwname.as_str(), name, data, sink)
}

/// An identifier that is in the catalog resolves to its entry, whether or not
/// it also matches a dynamic-name family; and resolving it reports nothing.
pub proof fn law_exact_match_wins(
    data: Everything,
    name: Seq<char>,
    i: int,
    loc: crate::token::Loc,
    before: Seq<crate::report::LogReport>,
)
    requires
        0 <= i < data.effect_catalog().len(),
        data.effect_catalog()[i].1@ == name,
        forall|j: int|
            0 <= j < data.effect_catalog().len() && j != i ==> data.effect_catalog()[j].1@ != name,
    ensures
        resolve_effect(data.effect_catalog(), name) == Some(
            (Scopes::spec_from_bits_truncate(data.effect_catalog()[i].0), data.effect_catalog()[i].2),
        ),
        effect_reports(data, name, loc, before, before),
{
    let cat = data.effect_catalog();
    assert(first_match(cat, name, i));
    crate::tables::lemma_first_match(cat, name, i);
}

} // verus!
