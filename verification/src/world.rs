//! The static world model: five hubs of warp pads and boss garages, their
//! unlock requirements and race rewards, the fixed vanilla baseline, and the
//! setters the randomization passes use to apply overlays.

use vstd::prelude::*;

use crate::data::{
    LevelID, RaceReward, RaceType, RequiredItem, UnlockRequirement, UnlockRequirementItem,
    UnlockStage,
};

verus! {

/// The reward granted by a trophy race.
#[derive(Clone, Copy, Debug, PartialEq, Eq, Structural)]
pub struct TrophyRaceRewards {
    pub trophy_reward: RaceReward,
}

/// The rewards of a trophy pad's second stage: one token plus the three
/// relic tiers.
#[derive(Clone, Copy, Debug, PartialEq, Eq, Structural)]
pub struct TokensAndRelicRewards {
    pub token_reward: RaceReward,
    pub relic_sapphire_reward: RaceReward,
    pub relic_gold_reward: RaceReward,
    pub relic_platinum_reward: RaceReward,
}

/// The single reward of a battle arena.
#[derive(Clone, Copy, Debug, PartialEq, Eq, Structural)]
pub struct BattleArenaRewards {
    pub single_reward: RaceReward,
}

/// The single reward of a boss race.
#[derive(Clone, Copy, Debug, PartialEq, Eq, Structural)]
pub struct BossRaceRewards {
    pub single_reward: RaceReward,
}

/// The rewards of a relic-only pad: the three relic tiers.
#[derive(Clone, Copy, Debug, PartialEq, Eq, Structural)]
pub struct RelicRaceOnlyRewards {
    pub relic_sapphire_reward: RaceReward,
    pub relic_gold_reward: RaceReward,
    pub relic_platinum_reward: RaceReward,
}

/// The single reward of a gem cup.
#[derive(Clone, Copy, Debug, PartialEq, Eq, Structural)]
pub struct GemCupRewards {
    pub single_reward: RaceReward,
}

/// The six reward shapes a race unlock can carry.
#[derive(Clone, Copy, Debug, PartialEq, Eq, Structural)]
pub enum Rewards {
    TrophyRaceRewards(TrophyRaceRewards),
    TokensAndRelicRewards(TokensAndRelicRewards),
    BattleArenaRewards(BattleArenaRewards),
    BossRaceRewards(BossRaceRewards),
    RelicRaceOnlyRewards(RelicRaceOnlyRewards),
    GemCupRewards(GemCupRewards),
}

/// One unlock stage of a warp pad: an optional gating requirement and the
/// reward(s) its races grant.
#[derive(Clone, Copy, Debug, PartialEq, Eq, Structural)]
pub struct RaceUnlock {
    pub requirement: Option<UnlockRequirementItem>,
    pub reward: Rewards,
}

/// The five boss characters, one per hub.
#[derive(Clone, Copy, Debug, PartialEq, Eq, Structural)]
pub enum BossCharacter {
    RipperRoo,
    PapuPapu,
    KomodoJoe,
    Pinstripe,
    NOxide,
}

/// The five hubs of the adventure world.
#[derive(Clone, Copy, Debug, PartialEq, Eq, Structural)]
pub enum Hubs {
    NSanityBeach,
    TheLostRuins,
    GlacierPark,
    CitadelCity,
    GemStoneValley,
}

/// Raised when an overlay addresses a stage a pad does not have.
#[derive(Clone, Copy, Debug, PartialEq, Eq, Structural)]
pub enum WorldError {
    /// The pad has no second unlock stage.
    MissingSecondStage,
}

/// A warp pad: binds its vanilla slot to the (possibly shuffled) track it
/// currently leads to, with one or two unlock stages.
#[derive(Clone, Copy, Debug, PartialEq, Eq, Structural)]
pub struct WarpPad {
    pub original_level_id: LevelID,
    pub current_level_id: LevelID,
    pub unlock_1: RaceUnlock,
    pub unlock_2: Option<RaceUnlock>,
}

impl WarpPad {
    /// The vanilla first-stage unlock of the track `current`: gem cups ask
    /// four tokens of their color and grant their gem; arenas ask a growing
    /// number of keys and grant a purple token; the two relic-only tracks
    /// ask five gems or ten sapphire relics; trophy tracks ask a trophy
    /// count growing through the hubs and grant a trophy.
    pub open spec fn spec_unlock_1(current: LevelID) -> RaceUnlock {
        if current == LevelID::CupRed {
            RaceUnlock {
                requirement: Some(
                    UnlockRequirementItem { item_type: RequiredItem::RedCtrToken, count: 4 },
                ),
                reward: Rewards::GemCupRewards(GemCupRewards { single_reward: RaceReward::RedGem }),
            }
        } else if current == LevelID::CupGreen {
            RaceUnlock {
                requirement: Some(
                    UnlockRequirementItem { item_type: RequiredItem::GreenCtrToken, count: 4 },
                ),
                reward: Rewards::GemCupRewards(
                    GemCupRewards { single_reward: RaceReward::GreenGem },
                ),
            }
        } else if current == LevelID::CupBlue {
            RaceUnlock {
                requirement: Some(
                    UnlockRequirementItem { item_type: RequiredItem::BlueCtrToken, count: 4 },
                ),
                reward: Rewards::GemCupRewards(
                    GemCupRewards { single_reward: RaceReward::BlueGem },
                ),
            }
        } else if current == LevelID::CupYellow {
            RaceUnlock {
                requirement: Some(
                    UnlockRequirementItem { item_type: RequiredItem::YellowCtrToken, count: 4 },
                ),
                reward: Rewards::GemCupRewards(
                    GemCupRewards { single_reward: RaceReward::YellowGem },
                ),
            }
        } else if current == LevelID::CupPurple {
            RaceUnlock {
                requirement: Some(
                    UnlockRequirementItem { item_type: RequiredItem::PurpleCtrToken, count: 4 },
                ),
                reward: Rewards::GemCupRewards(
                    GemCupRewards { single_reward: RaceReward::PurpleGem },
                ),
            }
        } else if current.spec_is_arena() {
            RaceUnlock {
                requirement: Some(
                    UnlockRequirementItem {
                        item_type: RequiredItem::Key,
                        count: if current == LevelID::SkullRock {
                            1
                        } else if current == LevelID::RampageRuins {
                            2
                        } else if current == LevelID::RockyRoad {
                            3
                        } else {
                            4
                        },
                    },
                ),
                reward: Rewards::GemCupRewards(
                    GemCupRewards { single_reward: RaceReward::PurpleCtrToken },
                ),
            }
        } else if current.spec_is_relic_only() {
            RaceUnlock {
                requirement: if current == LevelID::TurboTrack {
                    Some(UnlockRequirementItem { item_type: RequiredItem::AnyGem, count: 5 })
                } else {
                    Some(UnlockRequirementItem { item_type: RequiredItem::SapphireRelic, count: 10 })
                },
                reward: Rewards::RelicRaceOnlyRewards(
                    RelicRaceOnlyRewards {
                        relic_sapphire_reward: RaceReward::SapphireRelic,
                        relic_gold_reward: RaceReward::GoldRelic,
                        relic_platinum_reward: RaceReward::PlatinumRelic,
                    },
                ),
            }
        } else {
            RaceUnlock {
                requirement: Some(
                    UnlockRequirementItem {
                        item_type: RequiredItem::Trophy,
                        count: Self::spec_trophy_cost(current),
                    },
                ),
                reward: Rewards::TrophyRaceRewards(
                    TrophyRaceRewards { trophy_reward: RaceReward::Trophy },
                ),
            }
        }
    }

    /// The vanilla trophy threshold of a trophy track, scaling with how many
    /// trophies are obtainable before it.
    pub open spec fn spec_trophy_cost(current: LevelID) -> u8 {
        if current == LevelID::CrashCove || current == LevelID::RoosTubes {
            0
        } else if current == LevelID::MysteryCaves {
            1
        } else if current == LevelID::SewerSpeedway {
            3
        } else if current == LevelID::CocoPark || current == LevelID::TigerTemple {
            4
        } else if current == LevelID::PapusPyramid {
            6
        } else if current == LevelID::DingoCanyon {
            7
        } else if current == LevelID::BlizzardBluff {
            8
        } else if current == LevelID::DragonMines {
            9
        } else if current == LevelID::PolarPass {
            10
        } else if current == LevelID::TinyArena {
            11
        } else if current == LevelID::NGinLabs || current == LevelID::CortexCastle {
            12
        } else if current == LevelID::HotAirSkyway {
            14
        } else {
            15
        }
    }

    /// The vanilla second stage: only trophy tracks have one. It asks a key
    /// count growing by hub quarter and grants the track's token color plus
    /// the three relic tiers.
    pub open spec fn spec_unlock_2(current: LevelID) -> Option<RaceUnlock> {
        if current.spec_is_arena() || current.spec_is_cup() || current.spec_is_relic_only() {
            None
        } else {
            Some(
                RaceUnlock {
                    requirement: Some(
                        UnlockRequirementItem {
                            item_type: RequiredItem::Key,
                            count: Self::spec_key_cost(current),
                        },
                    ),
                    reward: Rewards::TokensAndRelicRewards(
                        TokensAndRelicRewards {
                            token_reward: Self::spec_token_color(current),
                            relic_sapphire_reward: RaceReward::SapphireRelic,
                            relic_gold_reward: RaceReward::GoldRelic,
                            relic_platinum_reward: RaceReward::PlatinumRelic,
                        },
                    ),
                },
            )
        }
    }

    /// The vanilla key threshold of a trophy track's second stage.
    pub open spec fn spec_key_cost(current: LevelID) -> u8 {
        if current == LevelID::CrashCove || current == LevelID::RoosTubes || current
            == LevelID::MysteryCaves || current == LevelID::SewerSpeedway {
            1
        } else if current == LevelID::CocoPark || current == LevelID::TigerTemple || current
            == LevelID::PapusPyramid || current == LevelID::DingoCanyon {
            2
        } else if current == LevelID::BlizzardBluff || current == LevelID::DragonMines || current
            == LevelID::PolarPass || current == LevelID::TinyArena {
            3
        } else {
            4
        }
    }

    /// The vanilla token color of a trophy track's second stage.
    pub open spec fn spec_token_color(current: LevelID) -> RaceReward {
        if current == LevelID::CrashCove || current == LevelID::MysteryCaves || current
            == LevelID::PapusPyramid || current == LevelID::BlizzardBluff {
            RaceReward::RedCtrToken
        } else if current == LevelID::RoosTubes || current == LevelID::CocoPark || current
            == LevelID::PolarPass || current == LevelID::CortexCastle {
            RaceReward::GreenCtrToken
        } else if current == LevelID::SewerSpeedway || current == LevelID::TigerTemple || current
            == LevelID::DragonMines || current == LevelID::NGinLabs {
            RaceReward::BlueCtrToken
        } else {
            RaceReward::YellowCtrToken
        }
    }

    /// The pad linking `original_level_id` to `current_level_id`, carrying
    /// the vanilla unlock stages of the current track.
    pub open spec fn spec_new(original_level_id: LevelID, current_level_id: LevelID) -> WarpPad {
        WarpPad {
            original_level_id,
            current_level_id,
            unlock_1: Self::spec_unlock_1(current_level_id),
            unlock_2: Self::spec_unlock_2(current_level_id),
        }
    }

    /// Builds the pad for a slot and the track it currently leads to, with
    /// the track's vanilla unlock costs and rewards.
    pub fn new(original_level_id: LevelID, current_level_id: LevelID) -> (r: Self)
        ensures
            r == Self::spec_new(original_level_id, current_level_id),
    {
        let unlock_1: RaceUnlock = match current_level_id {
            LevelID::CupRed => RaceUnlock {
                requirement: Some(
                    UnlockRequirementItem { item_type: RequiredItem::RedCtrToken, count: 4 },
                ),
                reward: Rewards::GemCupRewards(GemCupRewards { single_reward: RaceReward::RedGem }),
            },
            LevelID::CupGreen => RaceUnlock {
                requirement: Some(
                    UnlockRequirementItem { item_type: RequiredItem::GreenCtrToken, count: 4 },
                ),
                reward: Rewards::GemCupRewards(
                    GemCupRewards { single_reward: RaceReward::GreenGem },
                ),
            },
            LevelID::CupBlue => RaceUnlock {
                requirement: Some(
                    UnlockRequirementItem { item_type: RequiredItem::BlueCtrToken, count: 4 },
                ),
                reward: Rewards::GemCupRewards(
                    GemCupRewards { single_reward: RaceReward::BlueGem },
                ),
            },
            LevelID::CupYellow => RaceUnlock {
                requirement: Some(
                    UnlockRequirementItem { item_type: RequiredItem::YellowCtrToken, count: 4 },
                ),
                reward: Rewards::GemCupRewards(
                    GemCupRewards { single_reward: RaceReward::YellowGem },
                ),
            },
            LevelID::CupPurple => RaceUnlock {
                requirement: Some(
                    UnlockRequirementItem { item_type: RequiredItem::PurpleCtrToken, count: 4 },
                ),
                reward: Rewards::GemCupRewards(
                    GemCupRewards { single_reward: RaceReward::PurpleGem },
                ),
            },
            x @ (LevelID::SkullRock | LevelID::RampageRuins | LevelID::RockyRoad
                | LevelID::NitroCourt) => RaceUnlock {
                requirement: Some(
                    UnlockRequirementItem {
                        item_type: RequiredItem::Key,
                        count: if x == LevelID::SkullRock {
                            1
                        } else if x == LevelID::RampageRuins {
                            2
                        } else if x == LevelID::RockyRoad {
                            3
                        } else {
                            4
                        },
                    },
                ),
                reward: Rewards::GemCupRewards(
                    GemCupRewards { single_reward: RaceReward::PurpleCtrToken },
                ),
            },
            x @ (LevelID::TurboTrack | LevelID::SlideColiseum) => RaceUnlock {
                requirement: if x == LevelID::TurboTrack {
                    Some(UnlockRequirementItem { item_type: RequiredItem::AnyGem, count: 5 })
                } else {
                    Some(UnlockRequirementItem { item_type: RequiredItem::SapphireRelic, count: 10 })
                },
                reward: Rewards::RelicRaceOnlyRewards(
                    RelicRaceOnlyRewards {
                        relic_sapphire_reward: RaceReward::SapphireRelic,
                        relic_gold_reward: RaceReward::GoldRelic,
                        relic_platinum_reward: RaceReward::PlatinumRelic,
                    },
                ),
            },
            x => RaceUnlock {
                requirement: Some(
                    UnlockRequirementItem {
                        item_type: RequiredItem::Trophy,
                        count: if x == LevelID::CrashCove || x == LevelID::RoosTubes {
                            0
                        } else if x == LevelID::MysteryCaves {
                            1
                        } else if x == LevelID::SewerSpeedway {
                            3
                        } else if x == LevelID::CocoPark || x == LevelID::TigerTemple {
                            4
                        } else if x == LevelID::PapusPyramid {
                            6
                        } else if x == LevelID::DingoCanyon {
                            7
                        } else if x == LevelID::BlizzardBluff {
                            8
                        } else if x == LevelID::DragonMines {
                            9
                        } else if x == LevelID::PolarPass {
                            10
                        } else if x == LevelID::TinyArena {
                            11
                        } else if x == LevelID::NGinLabs || x == LevelID::CortexCastle {
                            12
                        } else if x == LevelID::HotAirSkyway {
                            14
                        } else {
                            15
                        },
                    },
                ),
                reward: Rewards::TrophyRaceRewards(
                    TrophyRaceRewards { trophy_reward: RaceReward::Trophy },
                ),
            },
        };

        let unlock_2: Option<RaceUnlock> = match current_level_id {
            LevelID::SlideColiseum | LevelID::TurboTrack | LevelID::SkullRock
                | LevelID::RampageRuins | LevelID::RockyRoad | LevelID::NitroCourt
                | LevelID::CupRed | LevelID::CupGreen | LevelID::CupBlue | LevelID::CupYellow
                | LevelID::CupPurple => None,
            x => {
                let key_count: u8 = if x == LevelID::CrashCove || x == LevelID::RoosTubes || x
                    == LevelID::MysteryCaves || x == LevelID::SewerSpeedway {
                    1
                } else if x == LevelID::CocoPark || x == LevelID::TigerTemple || x
                    == LevelID::PapusPyramid || x == LevelID::DingoCanyon {
                    2
                } else if x == LevelID::BlizzardBluff || x == LevelID::DragonMines || x
                    == LevelID::PolarPass || x == LevelID::TinyArena {
                    3
                } else {
                    4
                };

                let token_color: RaceReward = if x == LevelID::CrashCove || x
                    == LevelID::MysteryCaves || x == LevelID::PapusPyramid || x
                    == LevelID::BlizzardBluff {
                    RaceReward::RedCtrToken
                } else if x == LevelID::RoosTubes || x == LevelID::CocoPark || x
                    == LevelID::PolarPass || x == LevelID::CortexCastle {
                    RaceReward::GreenCtrToken
                } else if x == LevelID::SewerSpeedway || x == LevelID::TigerTemple || x
                    == LevelID::DragonMines || x == LevelID::NGinLabs {
                    RaceReward::BlueCtrToken
                } else {
                    RaceReward::YellowCtrToken
                };

                Some(
                    RaceUnlock {
                        requirement: Some(
                            UnlockRequirementItem { item_type: RequiredItem::Key, count: key_count },
                        ),
                        reward: Rewards::TokensAndRelicRewards(
                            TokensAndRelicRewards {
                                token_reward: token_color,
                                relic_sapphire_reward: RaceReward::SapphireRelic,
                                relic_gold_reward: RaceReward::GoldRelic,
                                relic_platinum_reward: RaceReward::PlatinumRelic,
                            },
                        ),
                    },
                )
            },
        };

        WarpPad { original_level_id, current_level_id, unlock_1, unlock_2 }
    }

    /// The track this pad currently leads to.
    pub fn get_levelid(&self) -> (r: LevelID)
        ensures
            r == self.current_level_id,
    {
        self.current_level_id
    }

    pub fn get_unlock_1(&self) -> (r: RaceUnlock)
        ensures
            r == self.unlock_1,
    {
        self.unlock_1
    }

    /// Replaces the first stage's gating requirement, keeping its reward.
    pub fn set_unlock_1(&mut self, requirement: UnlockRequirementItem)
        ensures
            *final(self) == (WarpPad {
                unlock_1: RaceUnlock { requirement: Some(requirement), ..old(self).unlock_1 },
                ..*old(self)
            }),
    {
        self.unlock_1.requirement = Some(requirement);
    }

    pub fn get_unlock_2(&self) -> (r: Option<RaceUnlock>)
        ensures
            r == self.unlock_2,
    {
        self.unlock_2
    }

    /// Replaces the second stage's gating requirement, keeping its reward;
    /// fails on a pad that has no second stage.
    pub fn set_unlock_2(&mut self, requirement: UnlockRequirementItem) -> (r: Result<
        (),
        WorldError,
    >)
        ensures
            (match old(self).unlock_2 {
                Some(u) => r == Ok::<(), WorldError>(()) && *final(self) == (WarpPad {
                    unlock_2: Some(RaceUnlock { requirement: Some(requirement), ..u }),
                    ..*old(self)
                }),
                None => r == Err::<(), WorldError>(WorldError::MissingSecondStage) && *final(self)
                    == *old(self),
            }),
    {
        match self.unlock_2 {
            Some(u) => {
                self.unlock_2 = Some(RaceUnlock { requirement: Some(requirement), ..u });
                Ok(())
            },
            None => Err(WorldError::MissingSecondStage),
        }
    }
}

/// One boss garage: its boss, its gate, and its race reward.
#[derive(Clone, Copy, Debug, PartialEq, Eq, Structural)]
pub struct BossGarage {
    pub boss: BossCharacter,
    pub requirement: UnlockRequirement,
    pub reward: Rewards,
}

/// One of the four generic hubs: four trophy pads, one arena, one boss
/// garage, under an optional entry requirement.
#[derive(Clone, Copy, Debug, PartialEq, Eq, Structural)]
pub struct GenericHub {
    pub requirement: Option<UnlockRequirementItem>,
    pub warppad_1: WarpPad,
    pub warppad_2: WarpPad,
    pub warppad_3: WarpPad,
    pub warppad_4: WarpPad,
    pub boss_garage: BossGarage,
    pub warppad_arena: WarpPad,
}

impl GenericHub {
    pub fn get_requirement(&self) -> (r: Option<UnlockRequirementItem>)
        ensures
            r == self.requirement,
    {
        self.requirement
    }
}

/// The fifth hub's distinct shape: two relic-only pads and five gem-cup
/// pads, plus the final boss garage.
#[derive(Clone, Copy, Debug, PartialEq, Eq, Structural)]
pub struct GemStoneValleyHub {
    pub requirement: Option<UnlockRequirementItem>,
    pub warppad_1: WarpPad,
    pub warppad_2: WarpPad,
    pub cup_warppad_1: WarpPad,
    pub cup_warppad_2: WarpPad,
    pub cup_warppad_3: WarpPad,
    pub cup_warppad_4: WarpPad,
    pub cup_warppad_5: WarpPad,
    pub boss_garage: BossGarage,
}

impl GemStoneValleyHub {
    pub fn get_requirement(&self) -> (r: Option<UnlockRequirementItem>)
        ensures
            r == self.requirement,
    {
        self.requirement
    }
}

/// The whole adventure world.
#[derive(Clone, Copy, Debug, PartialEq, Eq, Structural)]
pub struct GameWorld {
    pub hub_1: GenericHub,
    pub hub_2: GenericHub,
    pub hub_3: GenericHub,
    pub hub_4: GenericHub,
    pub gemstone_valley: GemStoneValleyHub,
}

impl GameWorld {
    /// The 27 warp pads in their fixed hub-by-hub order.
    pub open spec fn spec_pads(self) -> Seq<WarpPad> {
        seq![
            self.hub_1.warppad_1,
            self.hub_1.warppad_2,
            self.hub_1.warppad_3,
            self.hub_1.warppad_4,
            self.hub_1.warppad_arena,
            self.hub_2.warppad_1,
            self.hub_2.warppad_2,
            self.hub_2.warppad_3,
            self.hub_2.warppad_4,
            self.hub_2.warppad_arena,
            self.hub_3.warppad_1,
            self.hub_3.warppad_2,
            self.hub_3.warppad_3,
            self.hub_3.warppad_4,
            self.hub_3.warppad_arena,
            self.hub_4.warppad_1,
            self.hub_4.warppad_2,
            self.hub_4.warppad_3,
            self.hub_4.warppad_4,
            self.hub_4.warppad_arena,
            self.gemstone_valley.warppad_1,
            self.gemstone_valley.warppad_2,
            self.gemstone_valley.cup_warppad_1,
            self.gemstone_valley.cup_warppad_2,
            self.gemstone_valley.cup_warppad_3,
            self.gemstone_valley.cup_warppad_4,
            self.gemstone_valley.cup_warppad_5,
        ]
    }

    /// The pad sitting in the vanilla slot `slot`.
    pub open spec fn pad_at(self, slot: LevelID) -> WarpPad {
        match slot {
            LevelID::CrashCove => self.hub_1.warppad_1,
            LevelID::RoosTubes => self.hub_1.warppad_2,
            LevelID::MysteryCaves => self.hub_1.warppad_3,
            LevelID::SewerSpeedway => self.hub_1.warppad_4,
            LevelID::SkullRock => self.hub_1.warppad_arena,
            LevelID::CocoPark => self.hub_2.warppad_1,
            LevelID::TigerTemple => self.hub_2.warppad_2,
            LevelID::PapusPyramid => self.hub_2.warppad_3,
            LevelID::DingoCanyon => self.hub_2.warppad_4,
            LevelID::RampageRuins => self.hub_2.warppad_arena,
            LevelID::BlizzardBluff => self.hub_3.warppad_1,
            LevelID::DragonMines => self.hub_3.warppad_2,
            LevelID::PolarPass => self.hub_3.warppad_3,
            LevelID::TinyArena => self.hub_3.warppad_4,
            LevelID::RockyRoad => self.hub_3.warppad_arena,
            LevelID::NGinLabs => self.hub_4.warppad_1,
            LevelID::CortexCastle => self.hub_4.warppad_2,
            LevelID::HotAirSkyway => self.hub_4.warppad_3,
            LevelID::OxideStation => self.hub_4.warppad_4,
            LevelID::NitroCourt => self.hub_4.warppad_arena,
            LevelID::TurboTrack => self.gemstone_valley.warppad_1,
            LevelID::SlideColiseum => self.gemstone_valley.warppad_2,
            LevelID::CupRed => self.gemstone_valley.cup_warppad_1,
            LevelID::CupGreen => self.gemstone_valley.cup_warppad_2,
            LevelID::CupBlue => self.gemstone_valley.cup_warppad_3,
            LevelID::CupYellow => self.gemstone_valley.cup_warppad_4,
            LevelID::CupPurple => self.gemstone_valley.cup_warppad_5,
        }
    }

    /// The world with the pad of slot `slot` replaced by `p`.
    pub open spec fn with_pad(self, slot: LevelID, p: WarpPad) -> GameWorld {
        match slot {
            LevelID::CrashCove => GameWorld {
                hub_1: GenericHub { warppad_1: p, ..self.hub_1 },
                ..self
            },
            LevelID::RoosTubes => GameWorld {
                hub_1: GenericHub { warppad_2: p, ..self.hub_1 },
                ..self
            },
            LevelID::MysteryCaves => GameWorld {
                hub_1: GenericHub { warppad_3: p, ..self.hub_1 },
                ..self
            },
            LevelID::SewerSpeedway => GameWorld {
                hub_1: GenericHub { warppad_4: p, ..self.hub_1 },
                ..self
            },
            LevelID::SkullRock => GameWorld {
                hub_1: GenericHub { warppad_arena: p, ..self.hub_1 },
                ..self
            },
            LevelID::CocoPark => GameWorld {
                hub_2: GenericHub { warppad_1: p, ..self.hub_2 },
                ..self
            },
            LevelID::TigerTemple => GameWorld {
                hub_2: GenericHub { warppad_2: p, ..self.hub_2 },
                ..self
            },
            LevelID::PapusPyramid => GameWorld {
                hub_2: GenericHub { warppad_3: p, ..self.hub_2 },
                ..self
            },
            LevelID::DingoCanyon => GameWorld {
                hub_2: GenericHub { warppad_4: p, ..self.hub_2 },
                ..self
            },
            LevelID::RampageRuins => GameWorld {
                hub_2: GenericHub { warppad_arena: p, ..self.hub_2 },
                ..self
            },
            LevelID::BlizzardBluff => GameWorld {
                hub_3: GenericHub { warppad_1: p, ..self.hub_3 },
                ..self
            },
            LevelID::DragonMines => GameWorld {
                hub_3: GenericHub { warppad_2: p, ..self.hub_3 },
                ..self
            },
            LevelID::PolarPass => GameWorld {
                hub_3: GenericHub { warppad_3: p, ..self.hub_3 },
                ..self
            },
            LevelID::TinyArena => GameWorld {
                hub_3: GenericHub { warppad_4: p, ..self.hub_3 },
                ..self
            },
            LevelID::RockyRoad => GameWorld {
                hub_3: GenericHub { warppad_arena: p, ..self.hub_3 },
                ..self
            },
            LevelID::NGinLabs => GameWorld {
                hub_4: GenericHub { warppad_1: p, ..self.hub_4 },
                ..self
            },
            LevelID::CortexCastle => GameWorld {
                hub_4: GenericHub { warppad_2: p, ..self.hub_4 },
                ..self
            },
            LevelID::HotAirSkyway => GameWorld {
                hub_4: GenericHub { warppad_3: p, ..self.hub_4 },
                ..self
            },
            LevelID::OxideStation => GameWorld {
                hub_4: GenericHub { warppad_4: p, ..self.hub_4 },
                ..self
            },
            LevelID::NitroCourt => GameWorld {
                hub_4: GenericHub { warppad_arena: p, ..self.hub_4 },
                ..self
            },
            LevelID::TurboTrack => GameWorld {
                gemstone_valley: GemStoneValleyHub { warppad_1: p, ..self.gemstone_valley },
                ..self
            },
            LevelID::SlideColiseum => GameWorld {
                gemstone_valley: GemStoneValleyHub { warppad_2: p, ..self.gemstone_valley },
                ..self
            },
            LevelID::CupRed => GameWorld {
                gemstone_valley: GemStoneValleyHub { cup_warppad_1: p, ..self.gemstone_valley },
                ..self
            },
            LevelID::CupGreen => GameWorld {
                gemstone_valley: GemStoneValleyHub { cup_warppad_2: p, ..self.gemstone_valley },
                ..self
            },
            LevelID::CupBlue => GameWorld {
                gemstone_valley: GemStoneValleyHub { cup_warppad_3: p, ..self.gemstone_valley },
                ..self
            },
            LevelID::CupYellow => GameWorld {
                gemstone_valley: GemStoneValleyHub { cup_warppad_4: p, ..self.gemstone_valley },
                ..self
            },
            LevelID::CupPurple => GameWorld {
                gemstone_valley: GemStoneValleyHub { cup_warppad_5: p, ..self.gemstone_valley },
                ..self
            },
        }
    }

    /// Reads the pad of slot `slot`.
    pub fn get_pad(&self, slot: LevelID) -> (r: WarpPad)
        ensures
            r == self.pad_at(slot),
    {
        match slot {
            LevelID::CrashCove => self.hub_1.warppad_1,
            LevelID::RoosTubes => self.hub_1.warppad_2,
            LevelID::MysteryCaves => self.hub_1.warppad_3,
            LevelID::SewerSpeedway => self.hub_1.warppad_4,
            LevelID::SkullRock => self.hub_1.warppad_arena,
            LevelID::CocoPark => self.hub_2.warppad_1,
            LevelID::TigerTemple => self.hub_2.warppad_2,
            LevelID::PapusPyramid => self.hub_2.warppad_3,
            LevelID::DingoCanyon => self.hub_2.warppad_4,
            LevelID::RampageRuins => self.hub_2.warppad_arena,
            LevelID::BlizzardBluff => self.hub_3.warppad_1,
            LevelID::DragonMines => self.hub_3.warppad_2,
            LevelID::PolarPass => self.hub_3.warppad_3,
            LevelID::TinyArena => self.hub_3.warppad_4,
            LevelID::RockyRoad => self.hub_3.warppad_arena,
            LevelID::NGinLabs => self.hub_4.warppad_1,
            LevelID::CortexCastle => self.hub_4.warppad_2,
            LevelID::HotAirSkyway => self.hub_4.warppad_3,
            LevelID::OxideStation => self.hub_4.warppad_4,
            LevelID::NitroCourt => self.hub_4.warppad_arena,
            LevelID::TurboTrack => self.gemstone_valley.warppad_1,
            LevelID::SlideColiseum => self.gemstone_valley.warppad_2,
            LevelID::CupRed => self.gemstone_valley.cup_warppad_1,
            LevelID::CupGreen => self.gemstone_valley.cup_warppad_2,
            LevelID::CupBlue => self.gemstone_valley.cup_warppad_3,
            LevelID::CupYellow => self.gemstone_valley.cup_warppad_4,
            LevelID::CupPurple => self.gemstone_valley.cup_warppad_5,
        }
    }

    /// Replaces the pad of slot `slot`.
    pub fn set_pad(&mut self, slot: LevelID, p: WarpPad)
        ensures
            *final(self) == old(self).with_pad(slot, p),
    {
        match slot {
            LevelID::CrashCove => {
                self.hub_1.warppad_1 = p;
            },
            LevelID::RoosTubes => {
                self.hub_1.warppad_2 = p;
            },
            LevelID::MysteryCaves => {
                self.hub_1.warppad_3 = p;
            },
            LevelID::SewerSpeedway => {
                self.hub_1.warppad_4 = p;
            },
            LevelID::SkullRock => {
                self.hub_1.warppad_arena = p;
            },
            LevelID::CocoPark => {
                self.hub_2.warppad_1 = p;
            },
            LevelID::TigerTemple => {
                self.hub_2.warppad_2 = p;
            },
            LevelID::PapusPyramid => {
                self.hub_2.warppad_3 = p;
            },
            LevelID::DingoCanyon => {
                self.hub_2.warppad_4 = p;
            },
            LevelID::RampageRuins => {
                self.hub_2.warppad_arena = p;
            },
            LevelID::BlizzardBluff => {
                self.hub_3.warppad_1 = p;
            },
            LevelID::DragonMines => {
                self.hub_3.warppad_2 = p;
            },
            LevelID::PolarPass => {
                self.hub_3.warppad_3 = p;
            },
            LevelID::TinyArena => {
                self.hub_3.warppad_4 = p;
            },
            LevelID::RockyRoad => {
                self.hub_3.warppad_arena = p;
            },
            LevelID::NGinLabs => {
                self.hub_4.warppad_1 = p;
            },
            LevelID::CortexCastle => {
                self.hub_4.warppad_2 = p;
            },
            LevelID::HotAirSkyway => {
                self.hub_4.warppad_3 = p;
            },
            LevelID::OxideStation => {
                self.hub_4.warppad_4 = p;
            },
            LevelID::NitroCourt => {
                self.hub_4.warppad_arena = p;
            },
            LevelID::TurboTrack => {
                self.gemstone_valley.warppad_1 = p;
            },
            LevelID::SlideColiseum => {
                self.gemstone_valley.warppad_2 = p;
            },
            LevelID::CupRed => {
                self.gemstone_valley.cup_warppad_1 = p;
            },
            LevelID::CupGreen => {
                self.gemstone_valley.cup_warppad_2 = p;
            },
            LevelID::CupBlue => {
                self.gemstone_valley.cup_warppad_3 = p;
            },
            LevelID::CupYellow => {
                self.gemstone_valley.cup_warppad_4 = p;
            },
            LevelID::CupPurple => {
                self.gemstone_valley.cup_warppad_5 = p;
            },
        }
    }

    /// The original-slot to current-track pairs of the 27 pads, in fixed
    /// order.
    pub open spec fn spec_links(self) -> Seq<(LevelID, LevelID)> {
        self.spec_pads().map_values(|p: WarpPad| (p.original_level_id, p.current_level_id))
    }

    /// Lists every pad's original-slot to current-track link.
    pub fn get_warppad_links(&self) -> (r: Vec<(LevelID, LevelID)>)
        ensures
            r@ == self.spec_links(),
    {
        let mut r: Vec<(LevelID, LevelID)> = Vec::new();
        let pads = self.all_pads();
        let mut i: usize = 0;
        while i < pads.len()
            invariant
                0 <= i <= pads@.len(),
                pads@ == self.spec_pads(),
                r@.len() == i,
                forall|j: int|
                    0 <= j < i ==> r@[j] == (
                    #[trigger] pads@[j].original_level_id,
                    pads@[j].current_level_id,
                    ),
            decreases pads@.len() - i,
        {
            let p = pads[i];
            r.push((p.original_level_id, p.current_level_id));
            i = i + 1;
        }
        proof {
            assert(r@ =~= self.spec_links());
        }
        r
    }

    /// Lists the 27 pads in fixed order.
    pub fn all_pads(&self) -> (r: Vec<WarpPad>)
        ensures
            r@ == self.spec_pads(),
    {
        let mut r: Vec<WarpPad> = Vec::new();
        r.push(self.hub_1.warppad_1);
        r.push(self.hub_1.warppad_2);
        r.push(self.hub_1.warppad_3);
        r.push(self.hub_1.warppad_4);
        r.push(self.hub_1.warppad_arena);
        r.push(self.hub_2.warppad_1);
        r.push(self.hub_2.warppad_2);
        r.push(self.hub_2.warppad_3);
        r.push(self.hub_2.warppad_4);
        r.push(self.hub_2.warppad_arena);
        r.push(self.hub_3.warppad_1);
        r.push(self.hub_3.warppad_2);
        r.push(self.hub_3.warppad_3);
        r.push(self.hub_3.warppad_4);
        r.push(self.hub_3.warppad_arena);
        r.push(self.hub_4.warppad_1);
        r.push(self.hub_4.warppad_2);
        r.push(self.hub_4.warppad_3);
        r.push(self.hub_4.warppad_4);
        r.push(self.hub_4.warppad_arena);
        r.push(self.gemstone_valley.warppad_1);
        r.push(self.gemstone_valley.warppad_2);
        r.push(self.gemstone_valley.cup_warppad_1);
        r.push(self.gemstone_valley.cup_warppad_2);
        r.push(self.gemstone_valley.cup_warppad_3);
        r.push(self.gemstone_valley.cup_warppad_4);
        r.push(self.gemstone_valley.cup_warppad_5);
        proof {
            assert(r@ =~= self.spec_pads());
        }
        r
    }

    /// The unlock-table entries one pad contributes: its stage-one
    /// requirement keyed by its current track, plus the stage-two
    /// requirement where the pad has one.
    pub open spec fn pad_unlock_entries(p: WarpPad) -> Seq<
        ((LevelID, UnlockStage), Option<UnlockRequirementItem>),
    > {
        match p.unlock_2 {
            Some(u2) => seq![
                ((p.current_level_id, UnlockStage::One), p.unlock_1.requirement),
                ((p.current_level_id, UnlockStage::Two), u2.requirement),
            ],
            None => seq![((p.current_level_id, UnlockStage::One), p.unlock_1.requirement)],
        }
    }

    /// The flattened unlock table of a pad sequence.
    pub open spec fn unlocks_of(pads: Seq<WarpPad>) -> Seq<
        ((LevelID, UnlockStage), Option<UnlockRequirementItem>),
    >
        decreases pads.len(),
    {
        if pads.len() == 0 {
            Seq::empty()
        } else {
            Self::unlocks_of(pads.drop_last()) + Self::pad_unlock_entries(pads.last())
        }
    }

    /// Flattens every pad's one or two unlock stages into one table keyed by
    /// current track and stage.
    pub fn get_warppad_unlocks(&self) -> (r: Vec<
        ((LevelID, UnlockStage), Option<UnlockRequirementItem>),
    >)
        ensures
            r@ == Self::unlocks_of(self.spec_pads()),
    {
        let mut r: Vec<((LevelID, UnlockStage), Option<UnlockRequirementItem>)> = Vec::new();
        let pads = self.all_pads();
        let mut i: usize = 0;
        while i < pads.len()
            invariant
                0 <= i <= pads@.len(),
                pads@ == self.spec_pads(),
                r@ == Self::unlocks_of(pads@.take(i as int)),
            decreases pads@.len() - i,
        {
            let p = pads[i];
            r.push(((p.current_level_id, UnlockStage::One), p.unlock_1.requirement));
            match p.unlock_2 {
                Some(u2) => {
                    r.push(((p.current_level_id, UnlockStage::Two), u2.requirement));
                },
                None => {},
            }
            proof {
                assert(pads@.take(i + 1).drop_last() =~= pads@.take(i as int));
                assert(pads@.take(i + 1).last() == pads@[i as int]);
                assert(r@ =~= Self::unlocks_of(pads@.take(i + 1)));
            }
            i = i + 1;
        }
        proof {
            assert(pads@.take(pads@.len() as int) =~= pads@);
        }
        r
    }

    /// The reward entries one unlock stage contributes for the track
    /// `level`, one per race mode its reward shape covers.
    pub open spec fn unlock_reward_entries(level: LevelID, u: RaceUnlock) -> Seq<
        (LevelID, RaceType, RaceReward),
    > {
        match u.reward {
            Rewards::TrophyRaceRewards(t) => seq![(level, RaceType::TrophyRace, t.trophy_reward)],
            Rewards::TokensAndRelicRewards(t) => seq![
                (level, RaceType::CtrOrCrystalChallenge, t.token_reward),
                (level, RaceType::RelicRaceSapphire, t.relic_sapphire_reward),
                (level, RaceType::RelicRaceGold, t.relic_gold_reward),
                (level, RaceType::RelicRacePlatinum, t.relic_platinum_reward),
            ],
            Rewards::BattleArenaRewards(t) => seq![
                (level, RaceType::CtrOrCrystalChallenge, t.single_reward),
            ],
            Rewards::BossRaceRewards(t) => seq![(level, RaceType::BossRace, t.single_reward)],
            Rewards::RelicRaceOnlyRewards(t) => seq![
                (level, RaceType::RelicRaceSapphire, t.relic_sapphire_reward),
                (level, RaceType::RelicRaceGold, t.relic_gold_reward),
                (level, RaceType::RelicRacePlatinum, t.relic_platinum_reward),
            ],
            Rewards::GemCupRewards(t) => seq![(level, RaceType::GemCup, t.single_reward)],
        }
    }

    /// The reward entries one pad contributes: its stage one, then its stage
    /// two where it has one, both keyed by its current track.
    pub open spec fn pad_reward_entries(p: WarpPad) -> Seq<(LevelID, RaceType, RaceReward)> {
        Self::unlock_reward_entries(p.current_level_id, p.unlock_1) + (match p.unlock_2 {
            Some(u2) => Self::unlock_reward_entries(p.current_level_id, u2),
            None => Seq::empty(),
        })
    }

    /// The reward entry a generic hub's boss garage contributes at its fixed
    /// boss-race track, where its reward has the boss-race shape.
    pub open spec fn garage_reward_entries(g: BossGarage, level: LevelID) -> Seq<
        (LevelID, RaceType, RaceReward),
    > {
        match g.reward {
            Rewards::BossRaceRewards(t) => seq![(level, RaceType::BossRace, t.single_reward)],
            _ => Seq::empty(),
        }
    }

    /// The full reward table: each hub's five pads followed by its boss
    /// garage, then the fifth hub's seven pads. The final garage's terminal
    /// reward is fixed outside this table.
    pub open spec fn spec_race_rewards(self) -> Seq<(LevelID, RaceType, RaceReward)> {
        Self::pad_reward_entries(self.hub_1.warppad_1) + Self::pad_reward_entries(
            self.hub_1.warppad_2,
        ) + Self::pad_reward_entries(self.hub_1.warppad_3) + Self::pad_reward_entries(
            self.hub_1.warppad_4,
        ) + Self::pad_reward_entries(self.hub_1.warppad_arena) + Self::garage_reward_entries(
            self.hub_1.boss_garage,
            LevelID::RoosTubes,
        ) + Self::pad_reward_entries(self.hub_2.warppad_1) + Self::pad_reward_entries(
            self.hub_2.warppad_2,
        ) + Self::pad_reward_entries(self.hub_2.warppad_3) + Self::pad_reward_entries(
            self.hub_2.warppad_4,
        ) + Self::pad_reward_entries(self.hub_2.warppad_arena) + Self::garage_reward_entries(
            self.hub_2.boss_garage,
            LevelID::PapusPyramid,
        ) + Self::pad_reward_entries(self.hub_3.warppad_1) + Self::pad_reward_entries(
            self.hub_3.warppad_2,
        ) + Self::pad_reward_entries(self.hub_3.warppad_3) + Self::pad_reward_entries(
            self.hub_3.warppad_4,
        ) + Self::pad_reward_entries(self.hub_3.warppad_arena) + Self::garage_reward_entries(
            self.hub_3.boss_garage,
            LevelID::DragonMines,
        ) + Self::pad_reward_entries(self.hub_4.warppad_1) + Self::pad_reward_entries(
            self.hub_4.warppad_2,
        ) + Self::pad_reward_entries(self.hub_4.warppad_3) + Self::pad_reward_entries(
            self.hub_4.warppad_4,
        ) + Self::pad_reward_entries(self.hub_4.warppad_arena) + Self::garage_reward_entries(
            self.hub_4.boss_garage,
            LevelID::HotAirSkyway,
        ) + Self::pad_reward_entries(self.gemstone_valley.warppad_1) + Self::pad_reward_entries(
            self.gemstone_valley.warppad_2,
        ) + Self::pad_reward_entries(self.gemstone_valley.cup_warppad_1)
            + Self::pad_reward_entries(self.gemstone_valley.cup_warppad_2)
            + Self::pad_reward_entries(self.gemstone_valley.cup_warppad_3)
            + Self::pad_reward_entries(self.gemstone_valley.cup_warppad_4)
            + Self::pad_reward_entries(self.gemstone_valley.cup_warppad_5)
    }

    /// Flattens every race's reward: per hub its five pads then its boss
    /// garage, with multi-reward stages expanded to one entry per race mode.
    #[verifier::rlimit(30)]
    pub fn get_race_rewards(&self) -> (r: Vec<(LevelID, RaceType, RaceReward)>)
        ensures
            r@ == self.spec_race_rewards(),
    {
        let mut r: Vec<(LevelID, RaceType, RaceReward)> = Vec::new();
        append_pad_rewards(&mut r, &self.hub_1.warppad_1);
        append_pad_rewards(&mut r, &self.hub_1.warppad_2);
        append_pad_rewards(&mut r, &self.hub_1.warppad_3);
        append_pad_rewards(&mut r, &self.hub_1.warppad_4);
        append_pad_rewards(&mut r, &self.hub_1.warppad_arena);
        append_garage_rewards(&mut r, &self.hub_1.boss_garage, LevelID::RoosTubes);
        append_pad_rewards(&mut r, &self.hub_2.warppad_1);
        append_pad_rewards(&mut r, &self.hub_2.warppad_2);
        append_pad_rewards(&mut r, &self.hub_2.warppad_3);
        append_pad_rewards(&mut r, &self.hub_2.warppad_4);
        append_pad_rewards(&mut r, &self.hub_2.warppad_arena);
        append_garage_rewards(&mut r, &self.hub_2.boss_garage, LevelID::PapusPyramid);
        append_pad_rewards(&mut r, &self.hub_3.warppad_1);
        append_pad_rewards(&mut r, &self.hub_3.warppad_2);
        append_pad_rewards(&mut r, &self.hub_3.warppad_3);
        append_pad_rewards(&mut r, &self.hub_3.warppad_4);
        append_pad_rewards(&mut r, &self.hub_3.warppad_arena);
        append_garage_rewards(&mut r, &self.hub_3.boss_garage, LevelID::DragonMines);
        append_pad_rewards(&mut r, &self.hub_4.warppad_1);
        append_pad_rewards(&mut r, &self.hub_4.warppad_2);
        append_pad_rewards(&mut r, &self.hub_4.warppad_3);
        append_pad_rewards(&mut r, &self.hub_4.warppad_4);
        append_pad_rewards(&mut r, &self.hub_4.warppad_arena);
        append_garage_rewards(&mut r, &self.hub_4.boss_garage, LevelID::HotAirSkyway);
        append_pad_rewards(&mut r, &self.gemstone_valley.warppad_1);
        append_pad_rewards(&mut r, &self.gemstone_valley.warppad_2);
        append_pad_rewards(&mut r, &self.gemstone_valley.cup_warppad_1);
        append_pad_rewards(&mut r, &self.gemstone_valley.cup_warppad_2);
        append_pad_rewards(&mut r, &self.gemstone_valley.cup_warppad_3);
        append_pad_rewards(&mut r, &self.gemstone_valley.cup_warppad_4);
        append_pad_rewards(&mut r, &self.gemstone_valley.cup_warppad_5);
        proof {
            assert(r@ =~= self.spec_race_rewards());
        }
        r
    }

    /// Replaces the pad of each listed slot by a fresh pad leading to the
    /// listed track, with that track's vanilla unlock costs.
    pub open spec fn apply_links(w: GameWorld, links: Seq<(LevelID, LevelID)>) -> GameWorld
        decreases links.len(),
    {
        if links.len() == 0 {
            w
        } else {
            Self::apply_links(
                w.with_pad(links[0].0, WarpPad::spec_new(links[0].0, links[0].1)),
                links.drop_first(),
            )
        }
    }

    /// Applies a new original-slot to current-track mapping: each listed
    /// slot gets a fresh pad leading to the listed track.
    pub fn set_warppad_links(&mut self, new_links: Vec<(LevelID, LevelID)>)
        ensures
            *final(self) == Self::apply_links(*old(self), new_links@),
    {
        proof {
            assert(new_links@.skip(0) =~= new_links@);
        }
        let mut i: usize = 0;
        while i < new_links.len()
            invariant
                0 <= i <= new_links@.len(),
                Self::apply_links(*old(self), new_links@) == Self::apply_links(
                    *self,
                    new_links@.skip(i as int),
                ),
            decreases new_links@.len() - i,
        {
            let (key, value) = new_links[i];
            proof {
                assert(new_links@.skip(i as int).drop_first() =~= new_links@.skip(i + 1));
                assert(new_links@.skip(i as int)[0] == new_links@[i as int]);
            }
            let pad = WarpPad::new(key, value);
            self.set_pad(key, pad);
            i = i + 1;
        }
        proof {
            assert(new_links@.skip(new_links@.len() as int) =~= Seq::<(LevelID, LevelID)>::empty());
        }
    }
}

/// Appends the reward entries of one unlock stage; see
/// [`GameWorld::unlock_reward_entries`].
fn append_unlock_rewards(out: &mut Vec<(LevelID, RaceType, RaceReward)>, level: LevelID, u: &RaceUnlock)
    ensures
        final(out)@ == old(out)@ + GameWorld::unlock_reward_entries(level, *u),
{
    match u.reward {
        Rewards::TrophyRaceRewards(t) => {
            out.push((level, RaceType::TrophyRace, t.trophy_reward));
        },
        Rewards::TokensAndRelicRewards(t) => {
            out.push((level, RaceType::CtrOrCrystalChallenge, t.token_reward));
            out.push((level, RaceType::RelicRaceSapphire, t.relic_sapphire_reward));
            out.push((level, RaceType::RelicRaceGold, t.relic_gold_reward));
            out.push((level, RaceType::RelicRacePlatinum, t.relic_platinum_reward));
        },
        Rewards::BattleArenaRewards(t) => {
            out.push((level, RaceType::CtrOrCrystalChallenge, t.single_reward));
        },
        Rewards::BossRaceRewards(t) => {
            out.push((level, RaceType::BossRace, t.single_reward));
        },
        Rewards::RelicRaceOnlyRewards(t) => {
            out.push((level, RaceType::RelicRaceSapphire, t.relic_sapphire_reward));
            out.push((level, RaceType::RelicRaceGold, t.relic_gold_reward));
            out.push((level, RaceType::RelicRacePlatinum, t.relic_platinum_reward));
        },
        Rewards::GemCupRewards(t) => {
            out.push((level, RaceType::GemCup, t.single_reward));
        },
    }
    proof {
        assert(out@ =~= old(out)@ + GameWorld::unlock_reward_entries(level, *u));
    }
}

/// Appends the reward entries of one pad; see
/// [`GameWorld::pad_reward_entries`].
fn append_pad_rewards(out: &mut Vec<(LevelID, RaceType, RaceReward)>, p: &WarpPad)
    ensures
        final(out)@ == old(out)@ + GameWorld::pad_reward_entries(*p),
{
    append_unlock_rewards(out, p.current_level_id, &p.unlock_1);
    match p.unlock_2 {
        Some(u2) => {
            append_unlock_rewards(out, p.current_level_id, &u2);
        },
        None => {},
    }
    proof {
        assert(out@ =~= old(out)@ + GameWorld::pad_reward_entries(*p));
    }
}

/// Appends the reward entry of one boss garage; see
/// [`GameWorld::garage_reward_entries`].
fn append_garage_rewards(out: &mut Vec<(LevelID, RaceType, RaceReward)>, g: &BossGarage, level: LevelID)
    ensures
        final(out)@ == old(out)@ + GameWorld::garage_reward_entries(*g, level),
{
    match g.reward {
        Rewards::BossRaceRewards(t) => {
            out.push((level, RaceType::BossRace, t.single_reward));
        },
        _ => {},
    }
    proof {
        assert(out@ =~= old(out)@ + GameWorld::garage_reward_entries(*g, level));
    }
}

impl GameWorld {
    /// Whether the unlock table holds a stage-two entry for slot `slot`.
    pub open spec fn has_second_entry(
        unlocks: Seq<((LevelID, UnlockStage), Option<UnlockRequirementItem>)>,
        slot: LevelID,
    ) -> bool {
        exists|i: int|
            0 <= i < unlocks.len() && (#[trigger] unlocks[i]).0 == (slot, UnlockStage::Two)
    }

    /// One overlay step of [`Self::apply_unlocks`]. The entry addresses the
    /// pad by its vanilla slot, not by the track it currently leads to. A
    /// stage-one value also fills the pad's second stage when the overlay
    /// lists no stage-two entry of its own for the slot; a stage-two value
    /// for a pad without a second stage is dropped.
    pub open spec fn apply_unlock(
        w: GameWorld,
        slot: LevelID,
        stage: UnlockStage,
        req: Option<UnlockRequirementItem>,
        second_listed: bool,
    ) -> GameWorld {
        match req {
            None => w,
            Some(item) => {
                let p = w.pad_at(slot);
                match stage {
                    UnlockStage::One => {
                        let p1 = WarpPad {
                            unlock_1: RaceUnlock { requirement: Some(item), ..p.unlock_1 },
                            ..p
                        };
                        let p2 = match p.unlock_2 {
                            Some(u2) => if !second_listed {
                                WarpPad {
                                    unlock_2: Some(
                                        RaceUnlock { requirement: Some(item), ..u2 },
                                    ),
                                    ..p1
                                }
                            } else {
                                p1
                            },
                            None => p1,
                        };
                        w.with_pad(slot, p2)
                    },
                    UnlockStage::Two => {
                        match p.unlock_2 {
                            Some(u2) => w.with_pad(
                                slot,
                                WarpPad {
                                    unlock_2: Some(
                                        RaceUnlock { requirement: Some(item), ..u2 },
                                    ),
                                    ..p
                                },
                            ),
                            None => w,
                        }
                    },
                }
            },
        }
    }

    /// Folds a whole unlock overlay over the world, each step consulting the
    /// full overlay for the stage-mismatch policy.
    pub open spec fn apply_unlocks(
        w: GameWorld,
        full: Seq<((LevelID, UnlockStage), Option<UnlockRequirementItem>)>,
        rest: Seq<((LevelID, UnlockStage), Option<UnlockRequirementItem>)>,
    ) -> GameWorld
        decreases rest.len(),
    {
        if rest.len() == 0 {
            w
        } else {
            Self::apply_unlocks(
                Self::apply_unlock(
                    w,
                    rest[0].0.0,
                    rest[0].0.1,
                    rest[0].1,
                    Self::has_second_entry(full, rest[0].0.0),
                ),
                full,
                rest.drop_first(),
            )
        }
    }

    /// Applies an unlock-requirement overlay. Each entry addresses the warp
    /// pad sitting in the entry's vanilla slot, wherever that pad now leads.
    /// A pad with two stages receiving only a stage-one value has both
    /// stages serve that single requirement; a stage-two value aimed at a
    /// pad with one stage is dropped.
    #[verifier::rlimit(80)]
    pub fn set_warppad_unlocks(
        &mut self,
        warppad_unlocks: Vec<((LevelID, UnlockStage), Option<UnlockRequirementItem>)>,
    )
        requires
            forall|i: int|
                0 <= i < warppad_unlocks@.len() ==> (#[trigger] warppad_unlocks@[i]).1.is_some(),
        ensures
            *final(self) == Self::apply_unlocks(*old(self), warppad_unlocks@, warppad_unlocks@),
    {
        proof {
            assert(warppad_unlocks@.skip(0) =~= warppad_unlocks@);
        }
        let mut i: usize = 0;
        while i < warppad_unlocks.len()
            invariant
                0 <= i <= warppad_unlocks@.len(),
                forall|k: int|
                    0 <= k < warppad_unlocks@.len() ==> (
                    #[trigger] warppad_unlocks@[k]).1.is_some(),
                Self::apply_unlocks(*old(self), warppad_unlocks@, warppad_unlocks@)
                    == Self::apply_unlocks(
                    *self,
                    warppad_unlocks@,
                    warppad_unlocks@.skip(i as int),
                ),
            decreases warppad_unlocks@.len() - i,
        {
            let ((slot, stage), unlock_req) = warppad_unlocks[i];
            proof {
                assert(warppad_unlocks@.skip(i as int).drop_first() =~= warppad_unlocks@.skip(
                    i + 1,
                ));
                assert(warppad_unlocks@.skip(i as int)[0] == warppad_unlocks@[i as int]);
            }
            let second_listed = stage_two_listed(&warppad_unlocks, slot);
            let mut pad = self.get_pad(slot);
            match unlock_req {
                Some(item) => {
                    match stage {
                        UnlockStage::One => {
                            pad.set_unlock_1(item);
                            if pad.get_unlock_2().is_some() && !second_listed {
                                match pad.set_unlock_2(item) {
                                    Ok(()) => {},
                                    Err(_) => {},
                                }
                            }
                            self.set_pad(slot, pad);
                        },
                        UnlockStage::Two => {
                            if pad.get_unlock_2().is_some() {
                                match pad.set_unlock_2(item) {
                                    Ok(()) => {},
                                    Err(_) => {},
                                }
                                self.set_pad(slot, pad);
                            }
                        },
                    }
                },
                None => {},
            }
            i = i + 1;
        }
        proof {
            assert(warppad_unlocks@.skip(warppad_unlocks@.len() as int) =~= Seq::<
                ((LevelID, UnlockStage), Option<UnlockRequirementItem>),
            >::empty());
        }
    }

    /// One overlay step of [`Self::apply_garages`].
    pub open spec fn apply_garage(
        w: GameWorld,
        boss: BossCharacter,
        req: UnlockRequirement,
    ) -> GameWorld {
        match boss {
            BossCharacter::RipperRoo => GameWorld {
                hub_1: GenericHub {
                    boss_garage: BossGarage { requirement: req, ..w.hub_1.boss_garage },
                    ..w.hub_1
                },
                ..w
            },
            BossCharacter::PapuPapu => GameWorld {
                hub_2: GenericHub {
                    boss_garage: BossGarage { requirement: req, ..w.hub_2.boss_garage },
                    ..w.hub_2
                },
                ..w
            },
            BossCharacter::KomodoJoe => GameWorld {
                hub_3: GenericHub {
                    boss_garage: BossGarage { requirement: req, ..w.hub_3.boss_garage },
                    ..w.hub_3
                },
                ..w
            },
            BossCharacter::Pinstripe => GameWorld {
                hub_4: GenericHub {
                    boss_garage: BossGarage { requirement: req, ..w.hub_4.boss_garage },
                    ..w.hub_4
                },
                ..w
            },
            BossCharacter::NOxide => GameWorld {
                gemstone_valley: GemStoneValleyHub {
                    boss_garage: BossGarage {
                        requirement: req,
                        ..w.gemstone_valley.boss_garage
                    },
                    ..w.gemstone_valley
                },
                ..w
            },
        }
    }

    /// Folds a boss-garage overlay over the world.
    pub open spec fn apply_garages(
        w: GameWorld,
        reqs: Seq<(BossCharacter, UnlockRequirement)>,
    ) -> GameWorld
        decreases reqs.len(),
    {
        if reqs.len() == 0 {
            w
        } else {
            Self::apply_garages(Self::apply_garage(w, reqs[0].0, reqs[0].1), reqs.drop_first())
        }
    }

    /// Replaces each listed boss's garage gate.
    pub fn set_garage_unlocks(&mut self, garage_unlocks: Vec<(BossCharacter, UnlockRequirement)>)
        ensures
            *final(self) == Self::apply_garages(*old(self), garage_unlocks@),
    {
        proof {
            assert(garage_unlocks@.skip(0) =~= garage_unlocks@);
        }
        let mut i: usize = 0;
        while i < garage_unlocks.len()
            invariant
                0 <= i <= garage_unlocks@.len(),
                Self::apply_garages(*old(self), garage_unlocks@) == Self::apply_garages(
                    *self,
                    garage_unlocks@.skip(i as int),
                ),
            decreases garage_unlocks@.len() - i,
        {
            let (boss, req) = garage_unlocks[i];
            proof {
                assert(garage_unlocks@.skip(i as int).drop_first() =~= garage_unlocks@.skip(i + 1));
                assert(garage_unlocks@.skip(i as int)[0] == garage_unlocks@[i as int]);
            }
            match boss {
                BossCharacter::RipperRoo => {
                    self.hub_1.boss_garage.requirement = req;
                },
                BossCharacter::PapuPapu => {
                    self.hub_2.boss_garage.requirement = req;
                },
                BossCharacter::KomodoJoe => {
                    self.hub_3.boss_garage.requirement = req;
                },
                BossCharacter::Pinstripe => {
                    self.hub_4.boss_garage.requirement = req;
                },
                BossCharacter::NOxide => {
                    self.gemstone_valley.boss_garage.requirement = req;
                },
            }
            i = i + 1;
        }
        proof {
            assert(garage_unlocks@.skip(garage_unlocks@.len() as int) =~= Seq::<
                (BossCharacter, UnlockRequirement),
            >::empty());
        }
    }

    /// The unlock condition of each boss garage, in fixed order.
    pub open spec fn spec_garage_requirements(self) -> Seq<(BossCharacter, UnlockRequirement)> {
        seq![
            (BossCharacter::RipperRoo, self.hub_1.boss_garage.requirement),
            (BossCharacter::PapuPapu, self.hub_2.boss_garage.requirement),
            (BossCharacter::KomodoJoe, self.hub_3.boss_garage.requirement),
            (BossCharacter::Pinstripe, self.hub_4.boss_garage.requirement),
            (BossCharacter::NOxide, self.gemstone_valley.boss_garage.requirement),
        ]
    }

    /// Lists each boss garage's gate.
    pub fn get_garage_requirements(&self) -> (r: Vec<(BossCharacter, UnlockRequirement)>)
        ensures
            r@ == self.spec_garage_requirements(),
    {
        let mut r: Vec<(BossCharacter, UnlockRequirement)> = Vec::new();
        r.push((BossCharacter::RipperRoo, self.hub_1.boss_garage.requirement));
        r.push((BossCharacter::PapuPapu, self.hub_2.boss_garage.requirement));
        r.push((BossCharacter::KomodoJoe, self.hub_3.boss_garage.requirement));
        r.push((BossCharacter::Pinstripe, self.hub_4.boss_garage.requirement));
        r.push((BossCharacter::NOxide, self.gemstone_valley.boss_garage.requirement));
        proof {
            assert(r@ =~= self.spec_garage_requirements());
        }
        r
    }

    /// The entry requirement of each hub, in fixed order.
    pub open spec fn spec_hub_requirements(self) -> Seq<(Hubs, Option<UnlockRequirementItem>)> {
        seq![
            (Hubs::NSanityBeach, self.hub_1.requirement),
            (Hubs::TheLostRuins, self.hub_2.requirement),
            (Hubs::GlacierPark, self.hub_3.requirement),
            (Hubs::CitadelCity, self.hub_4.requirement),
            (Hubs::GemStoneValley, self.gemstone_valley.requirement),
        ]
    }

    /// Lists each hub's entry requirement.
    pub fn get_hub_requirements(&self) -> (r: Vec<(Hubs, Option<UnlockRequirementItem>)>)
        ensures
            r@ == self.spec_hub_requirements(),
    {
        let mut r: Vec<(Hubs, Option<UnlockRequirementItem>)> = Vec::new();
        r.push((Hubs::NSanityBeach, self.hub_1.requirement));
        r.push((Hubs::TheLostRuins, self.hub_2.requirement));
        r.push((Hubs::GlacierPark, self.hub_3.requirement));
        r.push((Hubs::CitadelCity, self.hub_4.requirement));
        r.push((Hubs::GemStoneValley, self.gemstone_valley.requirement));
        proof {
            assert(r@ =~= self.spec_hub_requirements());
        }
        r
    }
}

/// The vanilla mapping links every slot to itself.
pub proof fn lemma_vanilla_links_identity()
    ensures
        spec_vanilla_gameworld().spec_links().len() == 27,
        forall|j: int|
            0 <= j < spec_vanilla_gameworld().spec_links().len() ==> (
            #[trigger] spec_vanilla_gameworld().spec_links()[j]).0
                == spec_vanilla_gameworld().spec_links()[j].1,
{
    let pads = spec_vanilla_gameworld().spec_pads();
    assert forall|j: int|
        0 <= j < pads.len() implies (#[trigger] pads[j]).original_level_id
        == pads[j].current_level_id by {}
}

/// Every unlock-table entry of a pad list whose stages all carry a
/// requirement carries a requirement itself.
pub proof fn lemma_unlocks_of_all_some(pads: Seq<WarpPad>)
    requires
        forall|k: int|
            0 <= k < pads.len() ==> (#[trigger] pads[k]).unlock_1.requirement is Some && (match
            pads[k].unlock_2 {
                Some(u2) => u2.requirement is Some,
                None => true,
            }),
    ensures
        forall|i: int|
            0 <= i < GameWorld::unlocks_of(pads).len() ==> (#[trigger] GameWorld::unlocks_of(
                pads,
            )[i]).1 is Some,
    decreases pads.len(),
{
    if pads.len() > 0 {
        lemma_unlocks_of_all_some(pads.drop_last());
        assert(pads[pads.len() - 1] == pads.last());
        let entries = GameWorld::unlocks_of(pads);
        let prefix = GameWorld::unlocks_of(pads.drop_last());
        assert forall|i: int| 0 <= i < entries.len() implies (#[trigger] entries[i]).1 is Some by {
            if i < prefix.len() {
                assert(entries[i] == prefix[i]);
            } else {
                assert(entries[i] == GameWorld::pad_unlock_entries(pads.last())[i - prefix.len()]);
            }
        }
    }
}

/// Every stage of every vanilla pad carries a requirement.
pub proof fn lemma_vanilla_unlocks_present()
    ensures
        forall|i: int|
            0 <= i < GameWorld::unlocks_of(spec_vanilla_gameworld().spec_pads()).len() ==> (
            #[trigger] GameWorld::unlocks_of(spec_vanilla_gameworld().spec_pads())[i]).1 is Some,
{
    assert(forall|c: LevelID| (#[trigger] WarpPad::spec_unlock_1(c)).requirement is Some);
    assert(forall|c: LevelID|
        match #[trigger] WarpPad::spec_unlock_2(c) {
            Some(u2) => u2.requirement is Some,
            None => true,
        });
    let pads = spec_vanilla_gameworld().spec_pads();
    assert forall|k: int|
        0 <= k < pads.len() implies (#[trigger] pads[k]).unlock_1.requirement is Some && (match
    pads[k].unlock_2 {
        Some(u2) => u2.requirement is Some,
        None => true,
    }) by {
        assert(pads[k].unlock_1 == WarpPad::spec_unlock_1(pads[k].current_level_id));
        assert(pads[k].unlock_2 == WarpPad::spec_unlock_2(pads[k].current_level_id));
    }
    lemma_unlocks_of_all_some(pads);
}

/// Whether the overlay holds a stage-two entry for slot `slot`; see
/// [`GameWorld::has_second_entry`].
fn stage_two_listed(
    unlocks: &Vec<((LevelID, UnlockStage), Option<UnlockRequirementItem>)>,
    slot: LevelID,
) -> (r: bool)
    ensures
        r == GameWorld::has_second_entry(unlocks@, slot),
{
    let mut i: usize = 0;
    while i < unlocks.len()
        invariant
            0 <= i <= unlocks@.len(),
            forall|j: int| 0 <= j < i ==> (#[trigger] unlocks@[j]).0 != (slot, UnlockStage::Two),
    decreases unlocks@.len() - i,
    {
        let ((l, stage), _) = unlocks[i];
        if l == slot && stage == UnlockStage::Two {
            return true;
        }
        i = i + 1;
    }
    false
}

/// The fixed vanilla baseline: every pad leads to its own slot with vanilla
/// unlock costs, the four generic garages ask their hub's four vanilla
/// tracks and grant a key, and the final garage asks 4 keys and grants the
/// terminal reward. Pure and deterministic.
pub open spec fn spec_vanilla_gameworld() -> GameWorld {
    GameWorld {
        hub_1: GenericHub {
            requirement: None,
            warppad_1: WarpPad::spec_new(LevelID::CrashCove, LevelID::CrashCove),
            warppad_2: WarpPad::spec_new(LevelID::RoosTubes, LevelID::RoosTubes),
            warppad_3: WarpPad::spec_new(LevelID::MysteryCaves, LevelID::MysteryCaves),
            warppad_4: WarpPad::spec_new(LevelID::SewerSpeedway, LevelID::SewerSpeedway),
            boss_garage: BossGarage {
                boss: BossCharacter::RipperRoo,
                requirement: UnlockRequirement::LevelList(
                    LevelID::CrashCove,
                    LevelID::RoosTubes,
                    LevelID::MysteryCaves,
                    LevelID::SewerSpeedway,
                ),
                reward: Rewards::BossRaceRewards(BossRaceRewards { single_reward: RaceReward::Key }),
            },
            warppad_arena: WarpPad::spec_new(LevelID::SkullRock, LevelID::SkullRock),
        },
        hub_2: GenericHub {
            requirement: Some(UnlockRequirementItem { item_type: RequiredItem::Key, count: 1 }),
            warppad_1: WarpPad::spec_new(LevelID::CocoPark, LevelID::CocoPark),
            warppad_2: WarpPad::spec_new(LevelID::TigerTemple, LevelID::TigerTemple),
            warppad_3: WarpPad::spec_new(LevelID::PapusPyramid, LevelID::PapusPyramid),
            warppad_4: WarpPad::spec_new(LevelID::DingoCanyon, LevelID::DingoCanyon),
            boss_garage: BossGarage {
                boss: BossCharacter::PapuPapu,
                requirement: UnlockRequirement::LevelList(
                    LevelID::CocoPark,
                    LevelID::TigerTemple,
                    LevelID::PapusPyramid,
                    LevelID::DingoCanyon,
                ),
                reward: Rewards::BossRaceRewards(BossRaceRewards { single_reward: RaceReward::Key }),
            },
            warppad_arena: WarpPad::spec_new(LevelID::RampageRuins, LevelID::RampageRuins),
        },
        hub_3: GenericHub {
            requirement: Some(UnlockRequirementItem { item_type: RequiredItem::Key, count: 2 }),
            warppad_1: WarpPad::spec_new(LevelID::BlizzardBluff, LevelID::BlizzardBluff),
            warppad_2: WarpPad::spec_new(LevelID::DragonMines, LevelID::DragonMines),
            warppad_3: WarpPad::spec_new(LevelID::PolarPass, LevelID::PolarPass),
            warppad_4: WarpPad::spec_new(LevelID::TinyArena, LevelID::TinyArena),
            boss_garage: BossGarage {
                boss: BossCharacter::KomodoJoe,
                requirement: UnlockRequirement::LevelList(
                    LevelID::BlizzardBluff,
                    LevelID::DragonMines,
                    LevelID::PolarPass,
                    LevelID::TinyArena,
                ),
                reward: Rewards::BossRaceRewards(BossRaceRewards { single_reward: RaceReward::Key }),
            },
            warppad_arena: WarpPad::spec_new(LevelID::RockyRoad, LevelID::RockyRoad),
        },
        hub_4: GenericHub {
            requirement: Some(UnlockRequirementItem { item_type: RequiredItem::Key, count: 3 }),
            warppad_1: WarpPad::spec_new(LevelID::NGinLabs, LevelID::NGinLabs),
            warppad_2: WarpPad::spec_new(LevelID::CortexCastle, LevelID::CortexCastle),
            warppad_3: WarpPad::spec_new(LevelID::HotAirSkyway, LevelID::HotAirSkyway),
            warppad_4: WarpPad::spec_new(LevelID::OxideStation, LevelID::OxideStation),
            boss_garage: BossGarage {
                boss: BossCharacter::Pinstripe,
                requirement: UnlockRequirement::LevelList(
                    LevelID::NGinLabs,
                    LevelID::CortexCastle,
                    LevelID::HotAirSkyway,
                    LevelID::OxideStation,
                ),
                reward: Rewards::BossRaceRewards(BossRaceRewards { single_reward: RaceReward::Key }),
            },
            warppad_arena: WarpPad::spec_new(LevelID::NitroCourt, LevelID::NitroCourt),
        },
        gemstone_valley: GemStoneValleyHub {
            requirement: Some(UnlockRequirementItem { item_type: RequiredItem::Key, count: 1 }),
            warppad_1: WarpPad::spec_new(LevelID::TurboTrack, LevelID::TurboTrack),
            warppad_2: WarpPad::spec_new(LevelID::SlideColiseum, LevelID::SlideColiseum),
            cup_warppad_1: WarpPad::spec_new(LevelID::CupRed, LevelID::CupRed),
            cup_warppad_2: WarpPad::spec_new(LevelID::CupGreen, LevelID::CupGreen),
            cup_warppad_3: WarpPad::spec_new(LevelID::CupBlue, LevelID::CupBlue),
            cup_warppad_4: WarpPad::spec_new(LevelID::CupYellow, LevelID::CupYellow),
            cup_warppad_5: WarpPad::spec_new(LevelID::CupPurple, LevelID::CupPurple),
            boss_garage: BossGarage {
                boss: BossCharacter::NOxide,
                requirement: UnlockRequirement::Item(
                    UnlockRequirementItem { item_type: RequiredItem::Key, count: 4 },
                ),
                reward: Rewards::BossRaceRewards(
                    BossRaceRewards { single_reward: RaceReward::BeatTheGame },
                ),
            },
        },
    }
}

/// Builds the vanilla world; see [`spec_vanilla_gameworld`].
pub fn get_vanilla_gameworld() -> (r: GameWorld)
    ensures
        r == spec_vanilla_gameworld(),
{
    GameWorld {
        hub_1: GenericHub {
            requirement: None,
            warppad_1: WarpPad::new(LevelID::CrashCove, LevelID::CrashCove),
            warppad_2: WarpPad::new(LevelID::RoosTubes, LevelID::RoosTubes),
            warppad_3: WarpPad::new(LevelID::MysteryCaves, LevelID::MysteryCaves),
            warppad_4: WarpPad::new(LevelID::SewerSpeedway, LevelID::SewerSpeedway),
            boss_garage: BossGarage {
                boss: BossCharacter::RipperRoo,
                requirement: UnlockRequirement::LevelList(
                    LevelID::CrashCove,
                    LevelID::RoosTubes,
                    LevelID::MysteryCaves,
                    LevelID::SewerSpeedway,
                ),
                reward: Rewards::BossRaceRewards(BossRaceRewards { single_reward: RaceReward::Key }),
            },
            warppad_arena: WarpPad::new(LevelID::SkullRock, LevelID::SkullRock),
        },
        hub_2: GenericHub {
            requirement: Some(UnlockRequirementItem { item_type: RequiredItem::Key, count: 1 }),
            warppad_1: WarpPad::new(LevelID::CocoPark, LevelID::CocoPark),
            warppad_2: WarpPad::new(LevelID::TigerTemple, LevelID::TigerTemple),
            warppad_3: WarpPad::new(LevelID::PapusPyramid, LevelID::PapusPyramid),
            warppad_4: WarpPad::new(LevelID::DingoCanyon, LevelID::DingoCanyon),
            boss_garage: BossGarage {
                boss: BossCharacter::PapuPapu,
                requirement: UnlockRequirement::LevelList(
                    LevelID::CocoPark,
                    LevelID::TigerTemple,
                    LevelID::PapusPyramid,
                    LevelID::DingoCanyon,
                ),
                reward: Rewards::BossRaceRewards(BossRaceRewards { single_reward: RaceReward::Key }),
            },
            warppad_arena: WarpPad::new(LevelID::RampageRuins, LevelID::RampageRuins),
        },
        hub_3: GenericHub {
            requirement: Some(UnlockRequirementItem { item_type: RequiredItem::Key, count: 2 }),
            warppad_1: WarpPad::new(LevelID::BlizzardBluff, LevelID::BlizzardBluff),
            warppad_2: WarpPad::new(LevelID::DragonMines, LevelID::DragonMines),
            warppad_3: WarpPad::new(LevelID::PolarPass, LevelID::PolarPass),
            warppad_4: WarpPad::new(LevelID::TinyArena, LevelID::TinyArena),
            boss_garage: BossGarage {
                boss: BossCharacter::KomodoJoe,
                requirement: UnlockRequirement::LevelList(
                    LevelID::BlizzardBluff,
                    LevelID::DragonMines,
                    LevelID::PolarPass,
                    LevelID::TinyArena,
                ),
                reward: Rewards::BossRaceRewards(BossRaceRewards { single_reward: RaceReward::Key }),
            },
            warppad_arena: WarpPad::new(LevelID::RockyRoad, LevelID::RockyRoad),
        },
        hub_4: GenericHub {
            requirement: Some(UnlockRequirementItem { item_type: RequiredItem::Key, count: 3 }),
            warppad_1: WarpPad::new(LevelID::NGinLabs, LevelID::NGinLabs),
            warppad_2: WarpPad::new(LevelID::CortexCastle, LevelID::CortexCastle),
            warppad_3: WarpPad::new(LevelID::HotAirSkyway, LevelID::HotAirSkyway),
            warppad_4: WarpPad::new(LevelID::OxideStation, LevelID::OxideStation),
            boss_garage: BossGarage {
                boss: BossCharacter::Pinstripe,
                requirement: UnlockRequirement::LevelList(
                    LevelID::NGinLabs,
                    LevelID::CortexCastle,
                    LevelID::HotAirSkyway,
                    LevelID::OxideStation,
                ),
                reward: Rewards::BossRaceRewards(BossRaceRewards { single_reward: RaceReward::Key }),
            },
            warppad_arena: WarpPad::new(LevelID::NitroCourt, LevelID::NitroCourt),
        },
        gemstone_valley: GemStoneValleyHub {
            requirement: Some(UnlockRequirementItem { item_type: RequiredItem::Key, count: 1 }),
            warppad_1: WarpPad::new(LevelID::TurboTrack, LevelID::TurboTrack),
            warppad_2: WarpPad::new(LevelID::SlideColiseum, LevelID::SlideColiseum),
            cup_warppad_1: WarpPad::new(LevelID::CupRed, LevelID::CupRed),
            cup_warppad_2: WarpPad::new(LevelID::CupGreen, LevelID::CupGreen),
            cup_warppad_3: WarpPad::new(LevelID::CupBlue, LevelID::CupBlue),
            cup_warppad_4: WarpPad::new(LevelID::CupYellow, LevelID::CupYellow),
            cup_warppad_5: WarpPad::new(LevelID::CupPurple, LevelID::CupPurple),
            boss_garage: BossGarage {
                boss: BossCharacter::NOxide,
                requirement: UnlockRequirement::Item(
                    UnlockRequirementItem { item_type: RequiredItem::Key, count: 4 },
                ),
                reward: Rewards::BossRaceRewards(
                    BossRaceRewards { single_reward: RaceReward::BeatTheGame },
                ),
            },
        },
    }
}

} // verus!
