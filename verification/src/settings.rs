//! Operator-chosen settings that drive one seed generation, and the values
//! the flat settings table can carry.

use vstd::prelude::*;

verus! {

/// How warp-pad unlock requirements are decided.
#[derive(Clone, Copy, Debug, PartialEq, Eq, Structural)]
pub enum WarppadUnlockRequirements {
    /// Keep the fixed vanilla unlock costs.
    Vanilla,
    /// Invent requirements; a "4 keys" gate may appear.
    RandomWith4Keys,
    /// Invent requirements; never gate a pad behind all 4 keys at once.
    RandomWithout4Keys,
}

impl WarppadUnlockRequirements {
    /// Decodes the numeric value an operator front end hands over.
    pub fn try_from(v: i32) -> (r: Result<Self, ()>)
        ensures
            v == 0 ==> r == Ok::<Self, ()>(WarppadUnlockRequirements::Vanilla),
            v == 1 ==> r == Ok::<Self, ()>(WarppadUnlockRequirements::RandomWith4Keys),
            v == 2 ==> r == Ok::<Self, ()>(WarppadUnlockRequirements::RandomWithout4Keys),
            !(0 <= v <= 2) ==> r == Err::<Self, ()>(()),
    {
        match v {
            0 => Ok(WarppadUnlockRequirements::Vanilla),
            1 => Ok(WarppadUnlockRequirements::RandomWith4Keys),
            2 => Ok(WarppadUnlockRequirements::RandomWithout4Keys),
            _ => Err(()),
        }
    }
}

/// How boss-garage gates are decided.
#[derive(Clone, Copy, Debug, PartialEq, Eq, Structural)]
pub enum BossGarageRequirements {
    /// Beat the four tracks that vanilla assigns to the hub's pads.
    Original4Tracks,
    /// Beat the four tracks the hub's pads currently lead to.
    SameHubTracks,
    /// A trophy threshold growing by hub.
    Trophies,
}

impl BossGarageRequirements {
    /// Decodes the numeric value an operator front end hands over.
    pub fn try_from(v: i32) -> (r: Result<Self, ()>)
        ensures
            v == 0 ==> r == Ok::<Self, ()>(BossGarageRequirements::Original4Tracks),
            v == 1 ==> r == Ok::<Self, ()>(BossGarageRequirements::SameHubTracks),
            v == 2 ==> r == Ok::<Self, ()>(BossGarageRequirements::Trophies),
            !(0 <= v <= 2) ==> r == Err::<Self, ()>(()),
    {
        match v {
            0 => Ok(BossGarageRequirements::Original4Tracks),
            1 => Ok(BossGarageRequirements::SameHubTracks),
            2 => Ok(BossGarageRequirements::Trophies),
            _ => Err(()),
        }
    }

    /// Stable numeric value in the serialized table.
    pub open spec fn spec_num(self) -> u16 {
        match self {
            BossGarageRequirements::Original4Tracks => 0,
            BossGarageRequirements::SameHubTracks => 1,
            BossGarageRequirements::Trophies => 2,
        }
    }

    #[verifier::when_used_as_spec(spec_num)]
    pub fn num(self) -> (r: u16)
        ensures
            r == self.spec_num(),
    {
        match self {
            BossGarageRequirements::Original4Tracks => 0,
            BossGarageRequirements::SameHubTracks => 1,
            BossGarageRequirements::Trophies => 2,
        }
    }
}

/// What unlocks the final challenge.
#[derive(Clone, Copy, Debug, PartialEq, Eq, Structural)]
pub enum FinalOxideUnlock {
    SappireRelics18,
    GoldAndPlatinumRelics18,
}

impl FinalOxideUnlock {
    /// Decodes the numeric value an operator front end hands over.
    pub fn try_from(v: i32) -> (r: Result<Self, ()>)
        ensures
            v == 0 ==> r == Ok::<Self, ()>(FinalOxideUnlock::SappireRelics18),
            v == 1 ==> r == Ok::<Self, ()>(FinalOxideUnlock::GoldAndPlatinumRelics18),
            !(0 <= v <= 1) ==> r == Err::<Self, ()>(()),
    {
        match v {
            0 => Ok(FinalOxideUnlock::SappireRelics18),
            1 => Ok(FinalOxideUnlock::GoldAndPlatinumRelics18),
            _ => Err(()),
        }
    }

    /// Stable numeric value in the serialized table.
    pub open spec fn spec_num(self) -> u16 {
        match self {
            FinalOxideUnlock::SappireRelics18 => 0,
            FinalOxideUnlock::GoldAndPlatinumRelics18 => 1,
        }
    }

    #[verifier::when_used_as_spec(spec_num)]
    pub fn num(self) -> (r: u16)
        ensures
            r == self.spec_num(),
    {
        match self {
            FinalOxideUnlock::SappireRelics18 => 0,
            FinalOxideUnlock::GoldAndPlatinumRelics18 => 1,
        }
    }
}

/// Which relic time tier a relic race demands.
#[derive(Clone, Copy, Debug, PartialEq, Eq, Structural)]
pub enum RelicTime {
    SapphireTime,
    GoldTime,
    PlatinumTime,
}

impl RelicTime {
    /// Decodes the numeric value an operator front end hands over.
    pub fn try_from(v: i32) -> (r: Result<Self, ()>)
        ensures
            v == 0 ==> r == Ok::<Self, ()>(RelicTime::SapphireTime),
            v == 1 ==> r == Ok::<Self, ()>(RelicTime::GoldTime),
            v == 2 ==> r == Ok::<Self, ()>(RelicTime::PlatinumTime),
            !(0 <= v <= 2) ==> r == Err::<Self, ()>(()),
    {
        match v {
            0 => Ok(RelicTime::SapphireTime),
            1 => Ok(RelicTime::GoldTime),
            2 => Ok(RelicTime::PlatinumTime),
            _ => Err(()),
        }
    }

    /// Stable numeric value in the serialized table.
    pub open spec fn spec_num(self) -> u16 {
        match self {
            RelicTime::SapphireTime => 0,
            RelicTime::GoldTime => 1,
            RelicTime::PlatinumTime => 2,
        }
    }

    #[verifier::when_used_as_spec(spec_num)]
    pub fn num(self) -> (r: u16)
        ensures
            r == self.spec_num(),
    {
        match self {
            RelicTime::SapphireTime => 0,
            RelicTime::GoldTime => 1,
            RelicTime::PlatinumTime => 2,
        }
    }
}

/// Which warp-pad categories take part in the link shuffle.
#[derive(Clone, Copy, Debug, PartialEq, Eq, Structural)]
pub struct WarppadShuffle {
    pub include_battle_arenas: bool,
    pub include_gem_cups: bool,
}

/// Which reward categories join the shuffled item pool. A category left out
/// is pre-placed at its vanilla location instead.
#[derive(Clone, Copy, Debug, PartialEq, Eq, Structural)]
pub struct RewardShuffle {
    pub include_keys: bool,
    pub include_gems: bool,
    pub include_platinum_relics: bool,
}

/// The randomization switches of one generation.
#[derive(Clone, Copy, Debug)]
pub struct RandomizationSettings {
    /// Master switch: when off, the vanilla game is produced.
    pub shuffle_adventure: bool,
    /// `Some` shuffles race rewards with the given category choices.
    pub shuffle_race_rewards: Option<RewardShuffle>,
    /// `Some` shuffles warp-pad links with the given category choices.
    pub warppad_shuffle: Option<WarppadShuffle>,
    pub warppad_unlock_requirements: WarppadUnlockRequirements,
    pub bossgarage_unlock_requirements: BossGarageRequirements,
    pub autounlock_ctrchallenge_relicrace: bool,
}

/// Pass-through gameplay settings.
#[derive(Clone, Copy, Debug)]
pub struct GeneralSettings {
    pub rr_required_minimum_time: RelicTime,
    pub rr_require_perfects: bool,
    pub oxide_final_challenge_unlock: FinalOxideUnlock,
}

/// Pass-through quality-of-life toggles.
#[derive(Clone, Copy, Debug)]
pub struct QualityOfLifeSettings {
    pub skip_mask_hints: bool,
    pub autoskip_podium_cutscenes: bool,
    pub skip_mask_congrats: bool,
}

/// Everything the operator chose for one generation.
#[derive(Clone, Copy, Debug)]
pub struct SeedSettings {
    pub randomization: RandomizationSettings,
    pub general: GeneralSettings,
    pub qol: QualityOfLifeSettings,
    pub write_spoilerlog: bool,
    pub write_patchfile: bool,
}

/// A value carried by one entry of the flat settings table.
#[derive(Clone, Copy, Debug, PartialEq, Eq, Structural)]
pub enum SettingValue {
    Boolean(bool),
    RelicDifficulty(RelicTime),
    BossGarageRequirements(BossGarageRequirements),
    OxideRequiredRelics(FinalOxideUnlock),
    SeedHashPart(u16),
}

impl SettingValue {
    /// The 16-bit value written for this entry in the serialized table.
    pub open spec fn spec_num(self) -> u16 {
        match self {
            SettingValue::Boolean(b) => if b { 1 } else { 0 },
            SettingValue::RelicDifficulty(t) => t.spec_num(),
            SettingValue::BossGarageRequirements(b) => b.spec_num(),
            SettingValue::OxideRequiredRelics(o) => o.spec_num(),
            SettingValue::SeedHashPart(h) => h,
        }
    }

    #[verifier::when_used_as_spec(spec_num)]
    pub fn num(self) -> (r: u16)
        ensures
            r == self.spec_num(),
    {
        match self {
            SettingValue::Boolean(b) => if b { 1 } else { 0 },
            SettingValue::RelicDifficulty(t) => t.num(),
            SettingValue::BossGarageRequirements(b) => b.num(),
            SettingValue::OxideRequiredRelics(o) => o.num(),
            SettingValue::SeedHashPart(h) => h,
        }
    }
}

} // verus!
