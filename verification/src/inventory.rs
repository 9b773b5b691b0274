//! The player-inventory simulator: accumulates collected items and beaten
//! tracks, and evaluates whether a conjunction of gating requirements is
//! currently satisfied.

use vstd::prelude::*;

use crate::data::{LevelID, RaceReward, RequiredItem, UnlockRequirement, UnlockRequirementItem};

verus! {

/// The collection cap of each item family: 16 trophies, 4 of each token
/// color, 18 of each relic tier, 4 keys. Gems are single flags.
pub const TROPHY_CAP: u8 = 16;

pub const TOKEN_CAP: u8 = 4;

pub const RELIC_CAP: u8 = 18;

pub const KEY_CAP: u8 = 4;

/// One flag per gem color.
#[derive(Clone, Copy, Debug, PartialEq, Eq, Structural)]
pub struct GemFlags {
    pub red_gem: bool,
    pub green_gem: bool,
    pub blue_gem: bool,
    pub yellow_gem: bool,
    pub purple_gem: bool,
}

impl GemFlags {
    /// How many gem flags are set.
    pub open spec fn spec_count(self) -> int {
        (if self.red_gem { 1int } else { 0 }) + (if self.green_gem { 1int } else { 0 })
            + (if self.blue_gem { 1int } else { 0 }) + (if self.yellow_gem { 1int } else { 0 })
            + (if self.purple_gem { 1int } else { 0 })
    }

    pub fn get_count(&self) -> (r: u8)
        ensures
            r == self.spec_count(),
    {
        let mut count: u8 = 0;
        if self.red_gem {
            count = count + 1;
        }
        if self.green_gem {
            count = count + 1;
        }
        if self.blue_gem {
            count = count + 1;
        }
        if self.yellow_gem {
            count = count + 1;
        }
        if self.purple_gem {
            count = count + 1;
        }
        count
    }

    /// The flags after collecting `gem`; a non-gem reward changes nothing.
    pub open spec fn spec_set_gem(self, gem: RaceReward) -> GemFlags {
        match gem {
            RaceReward::RedGem => GemFlags { red_gem: true, ..self },
            RaceReward::GreenGem => GemFlags { green_gem: true, ..self },
            RaceReward::BlueGem => GemFlags { blue_gem: true, ..self },
            RaceReward::YellowGem => GemFlags { yellow_gem: true, ..self },
            RaceReward::PurpleGem => GemFlags { purple_gem: true, ..self },
            _ => self,
        }
    }

    pub fn set_gem(&mut self, gem: RaceReward)
        ensures
            *final(self) == old(self).spec_set_gem(gem),
    {
        match gem {
            RaceReward::RedGem => {
                self.red_gem = true;
            },
            RaceReward::GreenGem => {
                self.green_gem = true;
            },
            RaceReward::BlueGem => {
                self.blue_gem = true;
            },
            RaceReward::YellowGem => {
                self.yellow_gem = true;
            },
            RaceReward::PurpleGem => {
                self.purple_gem = true;
            },
            _ => (),
        }
    }
}

/// The mathematical model of a [`PlayerInventory`]: unbounded counters and
/// the sequence of beaten tracks.
pub ghost struct InvModel {
    pub trophies: int,
    pub tokens_red: int,
    pub tokens_green: int,
    pub tokens_blue: int,
    pub tokens_yellow: int,
    pub tokens_purple: int,
    pub relics_sapphire: int,
    pub relics_gold: int,
    pub relics_platinum: int,
    pub keys: int,
    pub gems: GemFlags,
    pub beaten: Seq<LevelID>,
}

impl InvModel {
    /// The inventory of a fresh simulation run: nothing collected, nothing
    /// beaten.
    pub open spec fn empty() -> InvModel {
        InvModel {
            trophies: 0,
            tokens_red: 0,
            tokens_green: 0,
            tokens_blue: 0,
            tokens_yellow: 0,
            tokens_purple: 0,
            relics_sapphire: 0,
            relics_gold: 0,
            relics_platinum: 0,
            keys: 0,
            gems: GemFlags {
                red_gem: false,
                green_gem: false,
                blue_gem: false,
                yellow_gem: false,
                purple_gem: false,
            },
            beaten: Seq::empty(),
        }
    }

    /// No counter exceeds its declared cap.
    pub open spec fn wf(self) -> bool {
        &&& 0 <= self.trophies <= TROPHY_CAP
        &&& 0 <= self.tokens_red <= TOKEN_CAP
        &&& 0 <= self.tokens_green <= TOKEN_CAP
        &&& 0 <= self.tokens_blue <= TOKEN_CAP
        &&& 0 <= self.tokens_yellow <= TOKEN_CAP
        &&& 0 <= self.tokens_purple <= TOKEN_CAP
        &&& 0 <= self.relics_sapphire <= RELIC_CAP
        &&& 0 <= self.relics_gold <= RELIC_CAP
        &&& 0 <= self.relics_platinum <= RELIC_CAP
        &&& 0 <= self.keys <= KEY_CAP
    }

    /// The inventory after collecting one reward: the matching counter grows
    /// by one unless already at its cap, a gem sets its flag, and the
    /// terminal sentinel changes nothing.
    pub open spec fn add_item(self, item: RaceReward) -> InvModel {
        match item {
            RaceReward::Trophy => if self.trophies < TROPHY_CAP {
                InvModel { trophies: self.trophies + 1, ..self }
            } else {
                self
            },
            RaceReward::RedCtrToken => if self.tokens_red < TOKEN_CAP {
                InvModel { tokens_red: self.tokens_red + 1, ..self }
            } else {
                self
            },
            RaceReward::GreenCtrToken => if self.tokens_green < TOKEN_CAP {
                InvModel { tokens_green: self.tokens_green + 1, ..self }
            } else {
                self
            },
            RaceReward::BlueCtrToken => if self.tokens_blue < TOKEN_CAP {
                InvModel { tokens_blue: self.tokens_blue + 1, ..self }
            } else {
                self
            },
            RaceReward::YellowCtrToken => if self.tokens_yellow < TOKEN_CAP {
                InvModel { tokens_yellow: self.tokens_yellow + 1, ..self }
            } else {
                self
            },
            RaceReward::PurpleCtrToken => if self.tokens_purple < TOKEN_CAP {
                InvModel { tokens_purple: self.tokens_purple + 1, ..self }
            } else {
                self
            },
            RaceReward::SapphireRelic => if self.relics_sapphire < RELIC_CAP {
                InvModel { relics_sapphire: self.relics_sapphire + 1, ..self }
            } else {
                self
            },
            RaceReward::GoldRelic => if self.relics_gold < RELIC_CAP {
                InvModel { relics_gold: self.relics_gold + 1, ..self }
            } else {
                self
            },
            RaceReward::PlatinumRelic => if self.relics_platinum < RELIC_CAP {
                InvModel { relics_platinum: self.relics_platinum + 1, ..self }
            } else {
                self
            },
            RaceReward::Key => if self.keys < KEY_CAP {
                InvModel { keys: self.keys + 1, ..self }
            } else {
                self
            },
            RaceReward::RedGem | RaceReward::GreenGem | RaceReward::BlueGem
                | RaceReward::YellowGem | RaceReward::PurpleGem => InvModel {
                gems: self.gems.spec_set_gem(item),
                ..self
            },
            RaceReward::BeatTheGame => self,
        }
    }

    /// The inventory after beating a track, idempotently.
    pub open spec fn add_track(self, track: LevelID) -> InvModel {
        if self.beaten.contains(track) {
            self
        } else {
            InvModel { beaten: self.beaten.push(track), ..self }
        }
    }

    /// How many of `item` the player effectively holds; `Any*` kinds
    /// aggregate their whole family, and a gem counts 0 or 1.
    pub open spec fn item_count(self, item: RequiredItem) -> int {
        match item {
            RequiredItem::Trophy => self.trophies,
            RequiredItem::RedCtrToken => self.tokens_red,
            RequiredItem::GreenCtrToken => self.tokens_green,
            RequiredItem::BlueCtrToken => self.tokens_blue,
            RequiredItem::YellowCtrToken => self.tokens_yellow,
            RequiredItem::PurpleCtrToken => self.tokens_purple,
            RequiredItem::AnyCtrToken => self.tokens_red + self.tokens_green + self.tokens_blue
                + self.tokens_yellow + self.tokens_purple,
            RequiredItem::SapphireRelic => self.relics_sapphire,
            RequiredItem::GoldRelic => self.relics_gold,
            RequiredItem::PlatinumRelic => self.relics_platinum,
            RequiredItem::AnyRelic => self.relics_sapphire + self.relics_gold
                + self.relics_platinum,
            RequiredItem::Key => self.keys,
            RequiredItem::RedGem => if self.gems.red_gem { 1int } else { 0 },
            RequiredItem::GreenGem => if self.gems.green_gem { 1int } else { 0 },
            RequiredItem::BlueGem => if self.gems.blue_gem { 1int } else { 0 },
            RequiredItem::YellowGem => if self.gems.yellow_gem { 1int } else { 0 },
            RequiredItem::PurpleGem => if self.gems.purple_gem { 1int } else { 0 },
            RequiredItem::AnyGem => self.gems.spec_count(),
        }
    }

    /// One requirement holds: an item threshold is met, or all four listed
    /// tracks are beaten.
    pub open spec fn passes_req(self, req: UnlockRequirement) -> bool {
        match req {
            UnlockRequirement::Item(it) => self.item_count(it.item_type) >= it.count,
            UnlockRequirement::LevelList(a, b, c, d) => self.beaten.contains(a)
                && self.beaten.contains(b) && self.beaten.contains(c) && self.beaten.contains(d),
        }
    }

    /// The conjunction of a whole requirement list.
    pub open spec fn passes_all(self, reqs: Seq<UnlockRequirement>) -> bool {
        forall|i: int| 0 <= i < reqs.len() ==> self.passes_req(#[trigger] reqs[i])
    }
}

/// Mutable simulation state of one placement attempt: per-item counters, a
/// gem flag set, and the set of beaten tracks. Reconstructed fresh for every
/// attempt, never persisted.
#[derive(Debug)]
pub struct PlayerInventory {
    pub num_trophies: u8,
    pub num_ctr_tokens_red: u8,
    pub num_ctr_tokens_green: u8,
    pub num_ctr_tokens_blue: u8,
    pub num_ctr_tokens_yellow: u8,
    pub num_ctr_tokens_purple: u8,
    pub num_relics_sapphire: u8,
    pub num_relics_gold: u8,
    pub num_relics_platinum: u8,
    pub num_keys: u8,
    pub collected_gems: GemFlags,
    pub beaten_tracks: Vec<LevelID>,
}

impl View for PlayerInventory {
    type V = InvModel;

    open spec fn view(&self) -> InvModel {
        InvModel {
            trophies: self.num_trophies as int,
            tokens_red: self.num_ctr_tokens_red as int,
            tokens_green: self.num_ctr_tokens_green as int,
            tokens_blue: self.num_ctr_tokens_blue as int,
            tokens_yellow: self.num_ctr_tokens_yellow as int,
            tokens_purple: self.num_ctr_tokens_purple as int,
            relics_sapphire: self.num_relics_sapphire as int,
            relics_gold: self.num_relics_gold as int,
            relics_platinum: self.num_relics_platinum as int,
            keys: self.num_keys as int,
            gems: self.collected_gems,
            beaten: self.beaten_tracks@,
        }
    }
}

impl PlayerInventory {
    pub fn new() -> (r: Self)
        ensures
            r@ == InvModel::empty(),
            r@.wf(),
    {
        let r = PlayerInventory {
            num_trophies: 0,
            num_ctr_tokens_red: 0,
            num_ctr_tokens_green: 0,
            num_ctr_tokens_blue: 0,
            num_ctr_tokens_yellow: 0,
            num_ctr_tokens_purple: 0,
            num_relics_sapphire: 0,
            num_relics_gold: 0,
            num_relics_platinum: 0,
            num_keys: 0,
            collected_gems: GemFlags {
                red_gem: false,
                green_gem: false,
                blue_gem: false,
                yellow_gem: false,
                purple_gem: false,
            },
            beaten_tracks: Vec::new(),
        };
        proof {
            assert(r@.beaten =~= Seq::<LevelID>::empty());
        }
        r
    }

    /// Collects one reward, clamped to the item caps; collecting can never
    /// push a counter past its cap, so well-formedness is preserved.
    pub fn add_item(&mut self, new_item: RaceReward)
        ensures
            final(self)@ == old(self)@.add_item(new_item),
            old(self)@.wf() ==> final(self)@.wf(),
    {
        match new_item {
            RaceReward::Trophy => {
                if self.num_trophies < TROPHY_CAP {
                    self.num_trophies = self.num_trophies + 1;
                }
            },
            RaceReward::RedCtrToken => {
                if self.num_ctr_tokens_red < TOKEN_CAP {
                    self.num_ctr_tokens_red = self.num_ctr_tokens_red + 1;
                }
            },
            RaceReward::GreenCtrToken => {
                if self.num_ctr_tokens_green < TOKEN_CAP {
                    self.num_ctr_tokens_green = self.num_ctr_tokens_green + 1;
                }
            },
            RaceReward::BlueCtrToken => {
                if self.num_ctr_tokens_blue < TOKEN_CAP {
                    self.num_ctr_tokens_blue = self.num_ctr_tokens_blue + 1;
                }
            },
            RaceReward::YellowCtrToken => {
                if self.num_ctr_tokens_yellow < TOKEN_CAP {
                    self.num_ctr_tokens_yellow = self.num_ctr_tokens_yellow + 1;
                }
            },
            RaceReward::PurpleCtrToken => {
                if self.num_ctr_tokens_purple < TOKEN_CAP {
                    self.num_ctr_tokens_purple = self.num_ctr_tokens_purple + 1;
                }
            },
            RaceReward::SapphireRelic => {
                if self.num_relics_sapphire < RELIC_CAP {
                    self.num_relics_sapphire = self.num_relics_sapphire + 1;
                }
            },
            RaceReward::GoldRelic => {
                if self.num_relics_gold < RELIC_CAP {
                    self.num_relics_gold = self.num_relics_gold + 1;
                }
            },
            RaceReward::PlatinumRelic => {
                if self.num_relics_platinum < RELIC_CAP {
                    self.num_relics_platinum = self.num_relics_platinum + 1;
                }
            },
            RaceReward::Key => {
                if self.num_keys < KEY_CAP {
                    self.num_keys = self.num_keys + 1;
                }
            },
            RaceReward::RedGem | RaceReward::GreenGem | RaceReward::BlueGem
                | RaceReward::YellowGem | RaceReward::PurpleGem => {
                self.collected_gems.set_gem(new_item);
            },
            RaceReward::BeatTheGame => {},
        }
    }

    /// Whether `track`'s race has been beaten.
    pub fn has_track(&self, track: LevelID) -> (r: bool)
        ensures
            r == self@.beaten.contains(track),
    {
        let mut i: usize = 0;
        while i < self.beaten_tracks.len()
            invariant
                0 <= i <= self.beaten_tracks@.len(),
                forall|j: int| 0 <= j < i ==> self.beaten_tracks@[j] != track,
            decreases self.beaten_tracks@.len() - i,
        {
            if self.beaten_tracks[i] == track {
                return true;
            }
            i = i + 1;
        }
        false
    }

    /// Marks a track's race as completed, idempotently.
    pub fn add_track(&mut self, track: LevelID)
        ensures
            final(self)@ == old(self)@.add_track(track),
            old(self)@.wf() ==> final(self)@.wf(),
    {
        if !self.has_track(track) {
            self.beaten_tracks.push(track);
        }
    }

    /// Whether every requirement in the list is currently satisfied.
    pub fn does_pass_requirements(&self, requirements: &Vec<UnlockRequirement>) -> (r: bool)
        ensures
            r == self@.passes_all(requirements@),
    {
        let mut i: usize = 0;
        while i < requirements.len()
            invariant
                0 <= i <= requirements@.len(),
                forall|j: int| 0 <= j < i ==> self@.passes_req(#[trigger] requirements@[j]),
            decreases requirements@.len() - i,
        {
            if !self.passes_one(&requirements[i]) {
                return false;
            }
            i = i + 1;
        }
        true
    }

    /// Whether one requirement is currently satisfied.
    pub fn passes_one(&self, req: &UnlockRequirement) -> (r: bool)
        ensures
            r == self@.passes_req(*req),
    {
        match req {
            UnlockRequirement::Item(item_req) => {
                let have: u32 = self.count_of(item_req.item_type);
                have >= item_req.count as u32
            },
            UnlockRequirement::LevelList(a, b, c, d) => {
                self.has_track(*a) && self.has_track(*b) && self.has_track(*c) && self.has_track(
                    *d,
                )
            },
        }
    }

    /// The effective count of one required-item kind.
    pub fn count_of(&self, item: RequiredItem) -> (r: u32)
        ensures
            r == self@.item_count(item),
    {
        match item {
            RequiredItem::Trophy => self.num_trophies as u32,
            RequiredItem::RedCtrToken => self.num_ctr_tokens_red as u32,
            RequiredItem::GreenCtrToken => self.num_ctr_tokens_green as u32,
            RequiredItem::BlueCtrToken => self.num_ctr_tokens_blue as u32,
            RequiredItem::YellowCtrToken => self.num_ctr_tokens_yellow as u32,
            RequiredItem::PurpleCtrToken => self.num_ctr_tokens_purple as u32,
            RequiredItem::AnyCtrToken => self.num_ctr_tokens_red as u32
                + self.num_ctr_tokens_green as u32 + self.num_ctr_tokens_blue as u32
                + self.num_ctr_tokens_yellow as u32 + self.num_ctr_tokens_purple as u32,
            RequiredItem::SapphireRelic => self.num_relics_sapphire as u32,
            RequiredItem::GoldRelic => self.num_relics_gold as u32,
            RequiredItem::PlatinumRelic => self.num_relics_platinum as u32,
            RequiredItem::AnyRelic => self.num_relics_sapphire as u32 + self.num_relics_gold as u32
                + self.num_relics_platinum as u32,
            RequiredItem::Key => self.num_keys as u32,
            RequiredItem::RedGem => if self.collected_gems.red_gem {
                1
            } else {
                0
            },
            RequiredItem::GreenGem => if self.collected_gems.green_gem {
                1
            } else {
                0
            },
            RequiredItem::BlueGem => if self.collected_gems.blue_gem {
                1
            } else {
                0
            },
            RequiredItem::YellowGem => if self.collected_gems.yellow_gem {
                1
            } else {
                0
            },
            RequiredItem::PurpleGem => if self.collected_gems.purple_gem {
                1
            } else {
                0
            },
            RequiredItem::AnyGem => self.collected_gems.get_count() as u32,
        }
    }

    /// The current counts of every concrete (non-aggregate) reward kind, in
    /// a fixed order; gems count 0 or 1. This is the palette the requirement
    /// generator draws invented requirements from.
    pub fn get_items(&self) -> (r: Vec<(RaceReward, u8)>)
        ensures
            r@ == seq![
                (RaceReward::Trophy, self.num_trophies),
                (RaceReward::RedCtrToken, self.num_ctr_tokens_red),
                (RaceReward::GreenCtrToken, self.num_ctr_tokens_green),
                (RaceReward::BlueCtrToken, self.num_ctr_tokens_blue),
                (RaceReward::YellowCtrToken, self.num_ctr_tokens_yellow),
                (RaceReward::PurpleCtrToken, self.num_ctr_tokens_purple),
                (RaceReward::SapphireRelic, self.num_relics_sapphire),
                (RaceReward::GoldRelic, self.num_relics_gold),
                (RaceReward::PlatinumRelic, self.num_relics_platinum),
                (RaceReward::Key, self.num_keys),
                (RaceReward::RedGem, if self.collected_gems.red_gem { 1u8 } else { 0u8 }),
                (RaceReward::GreenGem, if self.collected_gems.green_gem { 1u8 } else { 0u8 }),
                (RaceReward::BlueGem, if self.collected_gems.blue_gem { 1u8 } else { 0u8 }),
                (RaceReward::YellowGem, if self.collected_gems.yellow_gem { 1u8 } else { 0u8 }),
                (RaceReward::PurpleGem, if self.collected_gems.purple_gem { 1u8 } else { 0u8 }),
            ],
    {
        let mut r: Vec<(RaceReward, u8)> = Vec::new();
        r.push((RaceReward::Trophy, self.num_trophies));
        r.push((RaceReward::RedCtrToken, self.num_ctr_tokens_red));
        r.push((RaceReward::GreenCtrToken, self.num_ctr_tokens_green));
        r.push((RaceReward::BlueCtrToken, self.num_ctr_tokens_blue));
        r.push((RaceReward::YellowCtrToken, self.num_ctr_tokens_yellow));
        r.push((RaceReward::PurpleCtrToken, self.num_ctr_tokens_purple));
        r.push((RaceReward::SapphireRelic, self.num_relics_sapphire));
        r.push((RaceReward::GoldRelic, self.num_relics_gold));
        r.push((RaceReward::PlatinumRelic, self.num_relics_platinum));
        r.push((RaceReward::Key, self.num_keys));
        r.push((RaceReward::RedGem, if self.collected_gems.red_gem { 1 } else { 0 }));
        r.push((RaceReward::GreenGem, if self.collected_gems.green_gem { 1 } else { 0 }));
        r.push((RaceReward::BlueGem, if self.collected_gems.blue_gem { 1 } else { 0 }));
        r.push((RaceReward::YellowGem, if self.collected_gems.yellow_gem { 1 } else { 0 }));
        r.push((RaceReward::PurpleGem, if self.collected_gems.purple_gem { 1 } else { 0 }));
        proof {
            assert(r@ =~= seq![
                (RaceReward::Trophy, self.num_trophies),
                (RaceReward::RedCtrToken, self.num_ctr_tokens_red),
                (RaceReward::GreenCtrToken, self.num_ctr_tokens_green),
                (RaceReward::BlueCtrToken, self.num_ctr_tokens_blue),
                (RaceReward::YellowCtrToken, self.num_ctr_tokens_yellow),
                (RaceReward::PurpleCtrToken, self.num_ctr_tokens_purple),
                (RaceReward::SapphireRelic, self.num_relics_sapphire),
                (RaceReward::GoldRelic, self.num_relics_gold),
                (RaceReward::PlatinumRelic, self.num_relics_platinum),
                (RaceReward::Key, self.num_keys),
                (RaceReward::RedGem, if self.collected_gems.red_gem { 1u8 } else { 0u8 }),
                (RaceReward::GreenGem, if self.collected_gems.green_gem { 1u8 } else { 0u8 }),
                (RaceReward::BlueGem, if self.collected_gems.blue_gem { 1u8 } else { 0u8 }),
                (RaceReward::YellowGem, if self.collected_gems.yellow_gem { 1u8 } else { 0u8 }),
                (RaceReward::PurpleGem, if self.collected_gems.purple_gem { 1u8 } else { 0u8 }),
            ]);
        }
        r
    }
}

impl Default for PlayerInventory {
    /// Same as [`PlayerInventory::new`].
    fn default() -> (r: Self)
        ensures
            r@ == InvModel::empty(),
            r@.wf(),
    {
        PlayerInventory::new()
    }
}

} // verus!
