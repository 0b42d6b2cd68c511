//! The kinds of item that script can name, one registry for each.
use vstd::prelude::*;

verus! {

/// A kind of declared content item.
#[derive(Clone, Copy, Debug, PartialEq, Eq, PartialOrd, Ord, Hash, Structural)]
pub enum Item {
    Ambition,
    Amenity,
    ArtifactFeature,
    ArtifactFeatureGroup,
    ArtifactRarity,
    Building,
    CasusBelli,
    CouncilTask,
    CourtPosition,
    CourtType,
    CultureEra,
    CulturePillar,
    Decision,
    Doctrine,
    DynastyPerk,
    EducationFocus,
    Event,
    Faction,
    File,
    Government,
    Holding,
    HolySite,
    Hook,
    Ideas,
    Innovation,
    Interaction,
    Language,
    Law,
    LegionDistinctions,
    Lifestyle,
    Localization,
    Modifier,
    Music,
    NameList,
    Nickname,
    Perk,
    PrisonType,
    Relation,
    Scheme,
    Secret,
    Sexuality,
    Sound,
    SpecialBuilding,
    StrugglePhase,
    Tradition,
    Trait,
    VassalObligation,
}

} // verus!
