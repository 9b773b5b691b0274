//! Core vocabulary of the randomizer: locations, race types, rewards,
//! required items and gating requirements, together with the stable numeric
//! identifiers the serialized table uses for each of them.

use vstd::prelude::*;

verus! {

/// One of the 27 fixed track/warp-pad slots of the game world.
#[derive(Clone, Copy, Debug, PartialEq, Eq, Structural)]
pub enum LevelID {
    DingoCanyon,
    DragonMines,
    BlizzardBluff,
    CrashCove,
    TigerTemple,
    PapusPyramid,
    RoosTubes,
    HotAirSkyway,
    SewerSpeedway,
    MysteryCaves,
    CortexCastle,
    NGinLabs,
    PolarPass,
    OxideStation,
    CocoPark,
    TinyArena,
    SlideColiseum,
    TurboTrack,
    NitroCourt,
    RampageRuins,
    SkullRock,
    RockyRoad,
    CupRed,
    CupGreen,
    CupBlue,
    CupYellow,
    CupPurple,
}

impl LevelID {
    /// Stable numeric identifier of the location in the serialized table.
    /// Also the key of the total order used for deterministic iteration.
    pub open spec fn spec_num(self) -> u32 {
        match self {
            LevelID::DingoCanyon => 0,
            LevelID::DragonMines => 1,
            LevelID::BlizzardBluff => 2,
            LevelID::CrashCove => 3,
            LevelID::TigerTemple => 4,
            LevelID::PapusPyramid => 5,
            LevelID::RoosTubes => 6,
            LevelID::HotAirSkyway => 7,
            LevelID::SewerSpeedway => 8,
            LevelID::MysteryCaves => 9,
            LevelID::CortexCastle => 10,
            LevelID::NGinLabs => 11,
            LevelID::PolarPass => 12,
            LevelID::OxideStation => 13,
            LevelID::CocoPark => 14,
            LevelID::TinyArena => 15,
            LevelID::SlideColiseum => 16,
            LevelID::TurboTrack => 17,
            LevelID::NitroCourt => 18,
            LevelID::RampageRuins => 19,
            LevelID::SkullRock => 21,
            LevelID::RockyRoad => 23,
            LevelID::CupRed => 100,
            LevelID::CupGreen => 101,
            LevelID::CupBlue => 102,
            LevelID::CupYellow => 103,
            LevelID::CupPurple => 104,
        }
    }

    /// Executable form of [`Self::spec_num`].
    #[verifier::when_used_as_spec(spec_num)]
    pub fn num(self) -> (r: u32)
        ensures
            r == self.spec_num(),
    {
        match self {
            LevelID::DingoCanyon => 0,
            LevelID::DragonMines => 1,
            LevelID::BlizzardBluff => 2,
            LevelID::CrashCove => 3,
            LevelID::TigerTemple => 4,
            LevelID::PapusPyramid => 5,
            LevelID::RoosTubes => 6,
            LevelID::HotAirSkyway => 7,
            LevelID::SewerSpeedway => 8,
            LevelID::MysteryCaves => 9,
            LevelID::CortexCastle => 10,
            LevelID::NGinLabs => 11,
            LevelID::PolarPass => 12,
            LevelID::OxideStation => 13,
            LevelID::CocoPark => 14,
            LevelID::TinyArena => 15,
            LevelID::SlideColiseum => 16,
            LevelID::TurboTrack => 17,
            LevelID::NitroCourt => 18,
            LevelID::RampageRuins => 19,
            LevelID::SkullRock => 21,
            LevelID::RockyRoad => 23,
            LevelID::CupRed => 100,
            LevelID::CupGreen => 101,
            LevelID::CupBlue => 102,
            LevelID::CupYellow => 103,
            LevelID::CupPurple => 104,
        }
    }

    /// A battle-arena slot (single crystal-challenge race gated by keys).
    pub open spec fn spec_is_arena(self) -> bool {
        self == LevelID::SkullRock || self == LevelID::RampageRuins
            || self == LevelID::RockyRoad || self == LevelID::NitroCourt
    }

    /// A gem-cup slot.
    pub open spec fn spec_is_cup(self) -> bool {
        self == LevelID::CupRed || self == LevelID::CupGreen || self == LevelID::CupBlue
            || self == LevelID::CupYellow || self == LevelID::CupPurple
    }

    /// One of the two relic-race-only slots.
    pub open spec fn spec_is_relic_only(self) -> bool {
        self == LevelID::TurboTrack || self == LevelID::SlideColiseum
    }

    /// A trophy-style slot: five race modes over two unlock stages.
    pub open spec fn spec_is_trophy_pad(self) -> bool {
        !self.spec_is_arena() && !self.spec_is_cup() && !self.spec_is_relic_only()
    }

    #[verifier::when_used_as_spec(spec_is_arena)]
    pub fn is_arena(self) -> (r: bool)
        ensures
            r == self.spec_is_arena(),
    {
        matches!(
            self,
            LevelID::SkullRock | LevelID::RampageRuins | LevelID::RockyRoad | LevelID::NitroCourt
        )
    }

    #[verifier::when_used_as_spec(spec_is_cup)]
    pub fn is_cup(self) -> (r: bool)
        ensures
            r == self.spec_is_cup(),
    {
        matches!(
            self,
            LevelID::CupRed | LevelID::CupGreen | LevelID::CupBlue | LevelID::CupYellow
                | LevelID::CupPurple
        )
    }

    #[verifier::when_used_as_spec(spec_is_relic_only)]
    pub fn is_relic_only(self) -> (r: bool)
        ensures
            r == self.spec_is_relic_only(),
    {
        matches!(self, LevelID::TurboTrack | LevelID::SlideColiseum)
    }

    #[verifier::when_used_as_spec(spec_is_trophy_pad)]
    pub fn is_trophy_pad(self) -> (r: bool)
        ensures
            r == self.spec_is_trophy_pad(),
    {
        !self.is_arena() && !self.is_cup() && !self.is_relic_only()
    }
}

/// The two unlock stages a warp pad can carry. Trophy-style pads have both;
/// arenas, gem cups and the relic-only pads have stage one only.
#[derive(Clone, Copy, Debug, PartialEq, Eq, Structural)]
pub enum UnlockStage {
    One,
    Two,
}

/// Which competitive mode within a location is being gated or rewarded.
#[derive(Clone, Copy, Debug, PartialEq, Eq, Structural)]
pub enum RaceType {
    TrophyRace,
    CtrOrCrystalChallenge,
    RelicRaceSapphire,
    RelicRaceGold,
    RelicRacePlatinum,
    BossRace,
    GemCup,
}

impl RaceType {
    /// Stable numeric identifier in the serialized table.
    pub open spec fn spec_num(self) -> u16 {
        match self {
            RaceType::TrophyRace => 98,
            RaceType::CtrOrCrystalChallenge => 125,
            RaceType::RelicRaceSapphire => 97,
            RaceType::RelicRaceGold => 353,
            RaceType::RelicRacePlatinum => 609,
            RaceType::BossRace => 99,
            RaceType::GemCup => 95,
        }
    }

    #[verifier::when_used_as_spec(spec_num)]
    pub fn num(self) -> (r: u16)
        ensures
            r == self.spec_num(),
    {
        match self {
            RaceType::TrophyRace => 98,
            RaceType::CtrOrCrystalChallenge => 125,
            RaceType::RelicRaceSapphire => 97,
            RaceType::RelicRaceGold => 353,
            RaceType::RelicRacePlatinum => 609,
            RaceType::BossRace => 99,
            RaceType::GemCup => 95,
        }
    }
}

/// A reward granted for winning one race. `BeatTheGame` is the terminal
/// sentinel fixed at the final boss location.
#[derive(Clone, Copy, Debug, PartialEq, Eq, Structural)]
pub enum RaceReward {
    Trophy,
    RedCtrToken,
    GreenCtrToken,
    BlueCtrToken,
    YellowCtrToken,
    PurpleCtrToken,
    SapphireRelic,
    GoldRelic,
    PlatinumRelic,
    Key,
    RedGem,
    GreenGem,
    BlueGem,
    YellowGem,
    PurpleGem,
    BeatTheGame,
}

impl RaceReward {
    /// Stable numeric identifier in the serialized table.
    pub open spec fn spec_num(self) -> u16 {
        match self {
            RaceReward::Trophy => 98,
            RaceReward::RedCtrToken => 381,
            RaceReward::GreenCtrToken => 637,
            RaceReward::BlueCtrToken => 893,
            RaceReward::YellowCtrToken => 1149,
            RaceReward::PurpleCtrToken => 1405,
            RaceReward::SapphireRelic => 97,
            RaceReward::GoldRelic => 353,
            RaceReward::PlatinumRelic => 609,
            RaceReward::Key => 99,
            RaceReward::RedGem => 95,
            RaceReward::GreenGem => 351,
            RaceReward::BlueGem => 607,
            RaceReward::YellowGem => 863,
            RaceReward::PurpleGem => 1119,
            RaceReward::BeatTheGame => 1375,
        }
    }

    #[verifier::when_used_as_spec(spec_num)]
    pub fn num(self) -> (r: u16)
        ensures
            r == self.spec_num(),
    {
        match self {
            RaceReward::Trophy => 98,
            RaceReward::RedCtrToken => 381,
            RaceReward::GreenCtrToken => 637,
            RaceReward::BlueCtrToken => 893,
            RaceReward::YellowCtrToken => 1149,
            RaceReward::PurpleCtrToken => 1405,
            RaceReward::SapphireRelic => 97,
            RaceReward::GoldRelic => 353,
            RaceReward::PlatinumRelic => 609,
            RaceReward::Key => 99,
            RaceReward::RedGem => 95,
            RaceReward::GreenGem => 351,
            RaceReward::BlueGem => 607,
            RaceReward::YellowGem => 863,
            RaceReward::PurpleGem => 1119,
            RaceReward::BeatTheGame => 1375,
        }
    }

    /// A gem of any color.
    pub open spec fn spec_is_gem(self) -> bool {
        self == RaceReward::RedGem || self == RaceReward::GreenGem || self == RaceReward::BlueGem
            || self == RaceReward::YellowGem || self == RaceReward::PurpleGem
    }

    #[verifier::when_used_as_spec(spec_is_gem)]
    pub fn is_gem(self) -> (r: bool)
        ensures
            r == self.spec_is_gem(),
    {
        matches!(
            self,
            RaceReward::RedGem | RaceReward::GreenGem | RaceReward::BlueGem
                | RaceReward::YellowGem | RaceReward::PurpleGem
        )
    }
}

/// An item kind a requirement can ask for. The `Any*` members aggregate a
/// whole item family.
#[derive(Clone, Copy, Debug, PartialEq, Eq, Structural)]
pub enum RequiredItem {
    Trophy,
    RedCtrToken,
    GreenCtrToken,
    BlueCtrToken,
    YellowCtrToken,
    PurpleCtrToken,
    AnyCtrToken,
    SapphireRelic,
    GoldRelic,
    PlatinumRelic,
    AnyRelic,
    Key,
    RedGem,
    GreenGem,
    BlueGem,
    YellowGem,
    PurpleGem,
    AnyGem,
}

impl RequiredItem {
    /// Stable numeric identifier in the serialized table.
    pub open spec fn spec_num(self) -> u16 {
        match self {
            RequiredItem::Trophy => 98,
            RequiredItem::RedCtrToken => 381,
            RequiredItem::GreenCtrToken => 637,
            RequiredItem::BlueCtrToken => 893,
            RequiredItem::YellowCtrToken => 1149,
            RequiredItem::PurpleCtrToken => 1405,
            RequiredItem::AnyCtrToken => 1917,
            RequiredItem::SapphireRelic => 97,
            RequiredItem::GoldRelic => 353,
            RequiredItem::PlatinumRelic => 609,
            RequiredItem::AnyRelic => 1889,
            RequiredItem::Key => 99,
            RequiredItem::RedGem => 95,
            RequiredItem::GreenGem => 351,
            RequiredItem::BlueGem => 607,
            RequiredItem::YellowGem => 863,
            RequiredItem::PurpleGem => 1119,
            RequiredItem::AnyGem => 1887,
        }
    }

    #[verifier::when_used_as_spec(spec_num)]
    pub fn num(self) -> (r: u16)
        ensures
            r == self.spec_num(),
    {
        match self {
            RequiredItem::Trophy => 98,
            RequiredItem::RedCtrToken => 381,
            RequiredItem::GreenCtrToken => 637,
            RequiredItem::BlueCtrToken => 893,
            RequiredItem::YellowCtrToken => 1149,
            RequiredItem::PurpleCtrToken => 1405,
            RequiredItem::AnyCtrToken => 1917,
            RequiredItem::SapphireRelic => 97,
            RequiredItem::GoldRelic => 353,
            RequiredItem::PlatinumRelic => 609,
            RequiredItem::AnyRelic => 1889,
            RequiredItem::Key => 99,
            RequiredItem::RedGem => 95,
            RequiredItem::GreenGem => 351,
            RequiredItem::BlueGem => 607,
            RequiredItem::YellowGem => 863,
            RequiredItem::PurpleGem => 1119,
            RequiredItem::AnyGem => 1887,
        }
    }

    /// The single-item requirement kind matching a concrete reward, or
    /// `None` for the terminal sentinel, which gates nothing.
    pub open spec fn spec_of_reward(reward: RaceReward) -> Option<RequiredItem> {
        match reward {
            RaceReward::Trophy => Some(RequiredItem::Trophy),
            RaceReward::RedCtrToken => Some(RequiredItem::RedCtrToken),
            RaceReward::GreenCtrToken => Some(RequiredItem::GreenCtrToken),
            RaceReward::BlueCtrToken => Some(RequiredItem::BlueCtrToken),
            RaceReward::YellowCtrToken => Some(RequiredItem::YellowCtrToken),
            RaceReward::PurpleCtrToken => Some(RequiredItem::PurpleCtrToken),
            RaceReward::SapphireRelic => Some(RequiredItem::SapphireRelic),
            RaceReward::GoldRelic => Some(RequiredItem::GoldRelic),
            RaceReward::PlatinumRelic => Some(RequiredItem::PlatinumRelic),
            RaceReward::Key => Some(RequiredItem::Key),
            RaceReward::RedGem => Some(RequiredItem::RedGem),
            RaceReward::GreenGem => Some(RequiredItem::GreenGem),
            RaceReward::BlueGem => Some(RequiredItem::BlueGem),
            RaceReward::YellowGem => Some(RequiredItem::YellowGem),
            RaceReward::PurpleGem => Some(RequiredItem::PurpleGem),
            RaceReward::BeatTheGame => None,
        }
    }

    #[verifier::when_used_as_spec(spec_of_reward)]
    pub fn of_reward(reward: RaceReward) -> (r: Option<RequiredItem>)
        ensures
            r == Self::spec_of_reward(reward),
    {
        match reward {
            RaceReward::Trophy => Some(RequiredItem::Trophy),
            RaceReward::RedCtrToken => Some(RequiredItem::RedCtrToken),
            RaceReward::GreenCtrToken => Some(RequiredItem::GreenCtrToken),
            RaceReward::BlueCtrToken => Some(RequiredItem::BlueCtrToken),
            RaceReward::YellowCtrToken => Some(RequiredItem::YellowCtrToken),
            RaceReward::PurpleCtrToken => Some(RequiredItem::PurpleCtrToken),
            RaceReward::SapphireRelic => Some(RequiredItem::SapphireRelic),
            RaceReward::GoldRelic => Some(RequiredItem::GoldRelic),
            RaceReward::PlatinumRelic => Some(RequiredItem::PlatinumRelic),
            RaceReward::Key => Some(RequiredItem::Key),
            RaceReward::RedGem => Some(RequiredItem::RedGem),
            RaceReward::GreenGem => Some(RequiredItem::GreenGem),
            RaceReward::BlueGem => Some(RequiredItem::BlueGem),
            RaceReward::YellowGem => Some(RequiredItem::YellowGem),
            RaceReward::PurpleGem => Some(RequiredItem::PurpleGem),
            RaceReward::BeatTheGame => None,
        }
    }
}

/// An item threshold: the player needs at least `count` of `item_type`.
#[derive(Clone, Copy, Debug, PartialEq, Eq, Structural)]
pub struct UnlockRequirementItem {
    pub item_type: RequiredItem,
    pub count: u8,
}

/// A gating requirement: either an item threshold, or a list of four
/// locations whose races must all have been beaten (used only by boss
/// garages, whose gates always name four tracks).
#[derive(Clone, Copy, Debug, PartialEq, Eq, Structural)]
pub enum UnlockRequirement {
    Item(UnlockRequirementItem),
    LevelList(LevelID, LevelID, LevelID, LevelID),
}

/// A `(location, race type)` pair: the atomic unit of reward placement.
#[derive(Clone, Copy, Debug, PartialEq, Eq, Structural)]
pub struct ItemLocation {
    pub levelid: LevelID,
    pub racetype: RaceType,
}

/// Why one generation attempt failed. Every failure is recoverable by
/// regenerating with a different seed; none partially applies to the world.
#[derive(Clone, Copy, Debug, PartialEq, Eq, Structural)]
pub enum GenerationError {
    /// A table the graph builder dereferences is missing an entry.
    MalformedWorld,
    /// Every placement retry ran into a dead pool.
    PlacementExhausted,
    /// The declared pool and the empty locations went out of step: an
    /// internal-consistency violation, never silently coerced.
    InternalInconsistency,
    /// The zeroed placement pass feeding the requirement generator failed.
    RequirementGenerationFailed,
    /// The warp-pad shuffle exhausted its redraws of the category-locked
    /// partition without clearing the five-gem pad of gem-cup tracks.
    ShuffleExhausted,
}

/// Why one placement attempt was abandoned.
#[derive(Clone, Copy, Debug, PartialEq, Eq, Structural)]
pub enum PlacementError {
    /// No reachable empty location was left for the item in hand: a dead
    /// pool under the current assumptions, worth a retry.
    DeadEnd,
    /// The pool was not empty although every location was filled.
    PoolNotEmpty,
    /// A location stayed empty although the pool ran dry.
    UnfilledLocation,
    /// The finished placement failed the whole-world reachability check.
    UnreachableLocation,
    /// A location that should be pre-filled is absent from the graph.
    MissingSlot,
}

/// Identifier of one operator-facing setting in the serialized table.
#[derive(Clone, Copy, Debug, PartialEq, Eq, Structural)]
pub enum SettingID {
    RelicDifficulty,
    RelicNeedsPerfect,
    BossGarageRequirements,
    QolSkipMaskhints,
    QolSkipPodium,
    QolSkipMaskcongrats,
    OxideRequiredRelics,
    SeedHash1,
    SeedHash2,
}

impl SettingID {
    /// Stable numeric identifier in the serialized table.
    pub open spec fn spec_num(self) -> u32 {
        match self {
            SettingID::RelicDifficulty => 0,
            SettingID::RelicNeedsPerfect => 1,
            SettingID::BossGarageRequirements => 2,
            SettingID::QolSkipMaskhints => 3,
            SettingID::QolSkipPodium => 4,
            SettingID::QolSkipMaskcongrats => 5,
            SettingID::OxideRequiredRelics => 6,
            SettingID::SeedHash1 => 7,
            SettingID::SeedHash2 => 8,
        }
    }

    #[verifier::when_used_as_spec(spec_num)]
    pub fn num(self) -> (r: u32)
        ensures
            r == self.spec_num(),
    {
        match self {
            SettingID::RelicDifficulty => 0,
            SettingID::RelicNeedsPerfect => 1,
            SettingID::BossGarageRequirements => 2,
            SettingID::QolSkipMaskhints => 3,
            SettingID::QolSkipPodium => 4,
            SettingID::QolSkipMaskcongrats => 5,
            SettingID::OxideRequiredRelics => 6,
            SettingID::SeedHash1 => 7,
            SettingID::SeedHash2 => 8,
        }
    }
}

} // verus!
