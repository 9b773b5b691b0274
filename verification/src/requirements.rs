//! The requirement generator: when the operator asks for non-vanilla gating,
//! this pass invents unlock requirements instead of placing fixed items. It
//! first learns the reward layout from a placement run over a world whose
//! gates are all free, then grows an inventory outward from a random set of
//! first-hub pads, assigning each newly reachable location a requirement
//! drawn from the items in hand, weighted by item family, occasionally
//! generalized to an any-of-family aggregate, and finally scaled down.

use vstd::prelude::*;

use crate::data::{
    GenerationError, ItemLocation, LevelID, RaceReward, RaceType, RequiredItem,
    UnlockRequirement, UnlockRequirementItem, UnlockStage,
};
use crate::inventory::PlayerInventory;
use crate::locations::{copy_reqs, find_link, get_location_list};
use crate::placement::get_shuffled_rewards;
use crate::prng::GameRng;
use crate::settings::{RewardShuffle, WarppadUnlockRequirements};
use crate::world::{get_vanilla_gameworld, BossCharacter, Hubs};

verus! {

/// Which unlock stage of its pad gates one item location.
pub open spec fn spec_unlock_stage(location: ItemLocation) -> UnlockStage {
    match location.racetype {
        RaceType::TrophyRace | RaceType::BossRace | RaceType::GemCup => UnlockStage::One,
        RaceType::CtrOrCrystalChallenge => if location.levelid.spec_is_arena() {
            UnlockStage::One
        } else {
            UnlockStage::Two
        },
        RaceType::RelicRaceSapphire | RaceType::RelicRaceGold | RaceType::RelicRacePlatinum => if location.levelid.spec_is_relic_only() {
            UnlockStage::One
        } else {
            UnlockStage::Two
        },
    }
}

/// Executable form of [`spec_unlock_stage`].
pub fn get_unlock_stage(location: ItemLocation) -> (r: UnlockStage)
    ensures
        r == spec_unlock_stage(location),
{
    match location.racetype {
        RaceType::TrophyRace | RaceType::BossRace | RaceType::GemCup => UnlockStage::One,
        RaceType::CtrOrCrystalChallenge => {
            if location.levelid.is_arena() {
                UnlockStage::One
            } else {
                UnlockStage::Two
            }
        },
        RaceType::RelicRaceSapphire | RaceType::RelicRaceGold | RaceType::RelicRacePlatinum => {
            if location.levelid.is_relic_only() {
                UnlockStage::One
            } else {
                UnlockStage::Two
            }
        },
    }
}

/// The drawing weight of one item family when inventing a requirement:
/// trophies heavily favored, tokens, relics and keys moderate, gems rare.
pub open spec fn spec_weight_of(item: RaceReward) -> u16 {
    match item {
        RaceReward::Trophy => 100,
        RaceReward::RedCtrToken => 15,
        RaceReward::GreenCtrToken => 15,
        RaceReward::BlueCtrToken => 15,
        RaceReward::YellowCtrToken => 15,
        RaceReward::PurpleCtrToken => 10,
        RaceReward::SapphireRelic => 20,
        RaceReward::GoldRelic => 20,
        RaceReward::PlatinumRelic => 20,
        RaceReward::Key => 25,
        RaceReward::RedGem => 2,
        RaceReward::GreenGem => 2,
        RaceReward::BlueGem => 2,
        RaceReward::YellowGem => 2,
        RaceReward::PurpleGem => 2,
        RaceReward::BeatTheGame => 0,
    }
}

#[verifier::when_used_as_spec(spec_weight_of)]
fn weight_of(item: RaceReward) -> (r: u16)
    ensures
        r == spec_weight_of(item),
{
    match item {
        RaceReward::Trophy => 100,
        RaceReward::RedCtrToken => 15,
        RaceReward::GreenCtrToken => 15,
        RaceReward::BlueCtrToken => 15,
        RaceReward::YellowCtrToken => 15,
        RaceReward::PurpleCtrToken => 10,
        RaceReward::SapphireRelic => 20,
        RaceReward::GoldRelic => 20,
        RaceReward::PlatinumRelic => 20,
        RaceReward::Key => 25,
        RaceReward::RedGem => 2,
        RaceReward::GreenGem => 2,
        RaceReward::BlueGem => 2,
        RaceReward::YellowGem => 2,
        RaceReward::PurpleGem => 2,
        RaceReward::BeatTheGame => 0,
    }
}

/// A requirement count scaled down to sixty percent, rounded up.
pub open spec fn spec_scale_down(c: u8) -> u8 {
    ((3 * (c as int) + 4) / 5) as u8
}

fn scale_down(c: u8) -> (r: u8)
    ensures
        r == spec_scale_down(c),
        r <= c,
{
    ((3 * (c as u32) + 4) / 5) as u8
}

/// Removes and returns the reward at the first entry keyed `loc`.
fn take_by_key(v: &mut Vec<(ItemLocation, RaceReward)>, loc: ItemLocation) -> (r: Option<
    RaceReward,
>)
    ensures
        r is Some ==> final(v)@.len() == old(v)@.len() - 1,
        r is None ==> final(v)@ == old(v)@,
{
    let mut i: usize = 0;
    while i < v.len()
        invariant
            0 <= i <= v@.len(),
            v@ == old(v)@,
        decreases v@.len() - i,
    {
        if v[i].0 == loc {
            let (_, reward) = v.remove(i);
            return Some(reward);
        }
        i = i + 1;
    }
    None
}

/// One reward-table row keyed as the location graph keys it: an arena's
/// single reward travels under the gem-cup shape in the table, but the
/// location it belongs to races the crystal challenge.
pub open spec fn spec_reward_row_location(e: (LevelID, RaceType, RaceReward)) -> (
    ItemLocation,
    RaceReward,
) {
    let keyed_racetype = if e.0.spec_is_arena() && e.1 == RaceType::GemCup {
        RaceType::CtrOrCrystalChallenge
    } else {
        e.1
    };
    (ItemLocation { levelid: e.0, racetype: keyed_racetype }, e.2)
}

/// A flat reward table as a location-keyed placement: every row under its
/// graph key, plus the terminal reward at the final boss race, which the
/// table leaves out.
pub open spec fn spec_rewards_as_locations(flat: Seq<(LevelID, RaceType, RaceReward)>) -> Seq<
    (ItemLocation, RaceReward),
> {
    flat.map_values(|e: (LevelID, RaceType, RaceReward)| spec_reward_row_location(e)).push(
        (
            ItemLocation { levelid: LevelID::OxideStation, racetype: RaceType::BossRace },
            RaceReward::BeatTheGame,
        ),
    )
}

/// Converts a flat reward table; see [`spec_rewards_as_locations`].
pub fn rewards_as_locations(flat: &Vec<(LevelID, RaceType, RaceReward)>) -> (r: Vec<
    (ItemLocation, RaceReward),
>)
    ensures
        r@ == spec_rewards_as_locations(flat@),
{
    let mut z: Vec<(ItemLocation, RaceReward)> = Vec::new();
    let mut v: usize = 0;
    while v < flat.len()
        invariant
            0 <= v <= flat@.len(),
            z@.len() == v,
            forall|j: int|
                0 <= j < v ==> (#[trigger] z@[j]) == spec_reward_row_location(flat@[j]),
        decreases flat@.len() - v,
    {
        let (level, racetype, reward) = flat[v];
        let keyed_racetype = if level.is_arena() && racetype == RaceType::GemCup {
            RaceType::CtrOrCrystalChallenge
        } else {
            racetype
        };
        z.push((ItemLocation { levelid: level, racetype: keyed_racetype }, reward));
        v = v + 1;
    }
    z.push(
        (
            ItemLocation { levelid: LevelID::OxideStation, racetype: RaceType::BossRace },
            RaceReward::BeatTheGame,
        ),
    );
    proof {
        assert(z@ =~= spec_rewards_as_locations(flat@));
    }
    z
}

/// The output opens with `n_start` free first-hub starting entries: each of
/// the first `n_start` entries addresses a stage-one gate and carries the
/// open trophy requirement.
pub open spec fn free_start_gates(
    unlocks: Seq<((LevelID, UnlockStage), Option<UnlockRequirementItem>)>,
    n_start: int,
) -> bool {
    &&& 1 <= n_start <= 5
    &&& n_start <= unlocks.len()
    &&& (forall|k: int|
        0 <= k < n_start ==> (#[trigger] unlocks[k]).0.1 == UnlockStage::One && unlocks[k].1
            == Some(UnlockRequirementItem { item_type: RequiredItem::Trophy, count: 0 }))
}

/// Some count of free first-hub starting entries opens the output.
pub open spec fn has_free_start_gates(
    unlocks: Seq<((LevelID, UnlockStage), Option<UnlockRequirementItem>)>,
) -> bool {
    exists|n_start: int| #[trigger] free_start_gates(unlocks, n_start)
}

/// Every invented requirement is present, asks only items a player can hold
/// (a key threshold never above the four keys that exist), and, when the
/// operator forbade four-key gates, asks at most three keys.
pub open spec fn invented_ok(
    unlocks: Seq<((LevelID, UnlockStage), Option<UnlockRequirementItem>)>,
    setting: WarppadUnlockRequirements,
    links: Seq<(LevelID, LevelID)>,
) -> bool {
    forall|i: int|
        0 <= i < unlocks.len() ==> {
            &&& (#[trigger] unlocks[i]).1 is Some
            &&& (unlocks[i].1.unwrap().item_type == RequiredItem::Key ==> unlocks[i].1.unwrap().count
                <= 4)
            &&& (setting == WarppadUnlockRequirements::RandomWithout4Keys
                && unlocks[i].1.unwrap().item_type == RequiredItem::Key
                ==> unlocks[i].1.unwrap().count <= 3)
            &&& (exists|j: int| 0 <= j < links.len() && (#[trigger] links[j]).0 == unlocks[i].0.0)
        }
}

/// Invents unlock requirements for every reachable location under the same
/// reachability discipline as the placement pass: learn the reward layout
/// from a gate-free placement, open a weighted-random count of first-hub
/// pads, then repeatedly gate one reachable location with a requirement
/// drawn from the items in hand. Requirements are finally scaled down with
/// majority probability and remapped to vanilla pad slots. On success every
/// produced requirement satisfies [`invented_ok`] and the output opens with
/// the free starting gates ([`has_free_start_gates`]); the generation
/// failure is reported exactly when the layout pass gave up.
#[verifier::rlimit(60)]
pub fn get_random_warppad_unlocks(
    rng: &mut GameRng,
    requirement_setting: &WarppadUnlockRequirements,
    opt_reward_shuffle: &Option<RewardShuffle>,
    warppad_links: &Vec<(LevelID, LevelID)>,
    warppad_unlocks: &Vec<((LevelID, UnlockStage), Option<UnlockRequirementItem>)>,
    bossgarage_requirements: &Vec<(BossCharacter, UnlockRequirement)>,
    hub_requirements: &Vec<(Hubs, Option<UnlockRequirementItem>)>,
) -> (r: Result<Vec<((LevelID, UnlockStage), Option<UnlockRequirementItem>)>, GenerationError>)
    ensures
        (r matches Ok(u) ==> invented_ok(u@, *requirement_setting, warppad_links@)),
        (r matches Ok(u) ==> has_free_start_gates(u@)),
        r == Err::<
            Vec<((LevelID, UnlockStage), Option<UnlockRequirementItem>)>,
            GenerationError,
        >(GenerationError::RequirementGenerationFailed) ==> opt_reward_shuffle.is_some(),
{
    // A copy of the unlock table with every gate set to "free".
    let mut free_unlocks: Vec<((LevelID, UnlockStage), Option<UnlockRequirementItem>)> =
        Vec::new();
    let mut f: usize = 0;
    while f < warppad_unlocks.len()
        invariant
            0 <= f <= warppad_unlocks@.len(),
            forall|j: int|
                0 <= j < f ==> (#[trigger] free_unlocks@[j]).1 == Some(
                    UnlockRequirementItem { item_type: RequiredItem::Trophy, count: 0 },
                ),
            free_unlocks@.len() == f,
        decreases warppad_unlocks@.len() - f,
    {
        let ((l, st), _) = warppad_unlocks[f];
        free_unlocks.push(
            ((l, st), Some(UnlockRequirementItem { item_type: RequiredItem::Trophy, count: 0 })),
        );
        f = f + 1;
    }

    // Learn the reward layout without gating interference.
    let mut zeroed: Vec<(ItemLocation, RaceReward)> = match opt_reward_shuffle {
        Some(reward_shuffle) => {
            match get_shuffled_rewards(
                rng,
                reward_shuffle,
                warppad_links,
                &free_unlocks,
                bossgarage_requirements,
                hub_requirements,
            ) {
                Ok(p) => p,
                Err(GenerationError::MalformedWorld) => {
                    return Err(GenerationError::MalformedWorld);
                },
                Err(_) => {
                    // The layout pass itself gave up: propagate as this
                    // component's own exhaustion, per the error taxonomy.
                    return Err(GenerationError::RequirementGenerationFailed);
                },
            }
        },
        None => {
            let world = get_vanilla_gameworld();
            let flat = world.get_race_rewards();
            rewards_as_locations(&flat)
        },
    };

    // The unrestricted location graph, split by unlock stage: second-stage
    // locations only become assignable once their pad's first stage is open.
    let full_list = match get_location_list(
        warppad_links,
        &free_unlocks,
        bossgarage_requirements,
        hub_requirements,
    ) {
        Ok(ll) => ll,
        Err(e) => {
            return Err(e);
        },
    };
    let mut active: Vec<(ItemLocation, Vec<UnlockRequirement>)> = Vec::new();
    let mut second_stage: Vec<(ItemLocation, Vec<UnlockRequirement>)> = Vec::new();
    let mut s: usize = 0;
    while s < full_list.len()
        decreases full_list@.len() - s,
    {
        let entry = &full_list[s];
        let reqs_copy = copy_reqs(&entry.1);
        if get_unlock_stage(entry.0) == UnlockStage::One {
            active.push((entry.0, reqs_copy));
        } else {
            second_stage.push((entry.0, reqs_copy));
        }
        s = s + 1;
    }

    // Open a weighted-random count of first-hub pads.
    let w = rng.next_below(100);
    let num_starting: usize = if w < 10 {
        1
    } else if w < 40 {
        2
    } else if w < 70 {
        3
    } else if w < 85 {
        4
    } else {
        5
    };
    let mut hub1_slots: Vec<LevelID> = Vec::new();
    hub1_slots.push(LevelID::CrashCove);
    hub1_slots.push(LevelID::RoosTubes);
    hub1_slots.push(LevelID::MysteryCaves);
    hub1_slots.push(LevelID::SewerSpeedway);
    hub1_slots.push(LevelID::SkullRock);
    rng.shuffle(&mut hub1_slots);

    let mut random_unlocks: Vec<((LevelID, UnlockStage), Option<UnlockRequirementItem>)> =
        Vec::new();
    let mut inventory = PlayerInventory::new();
    let mut filled: Vec<ItemLocation> = Vec::new();

    let ghost n_start = num_starting as int;
    let mut sp: usize = 0;
    while sp < num_starting && sp < hub1_slots.len()
        invariant
            inventory@.wf(),
            forall|j: int|
                0 <= j < random_unlocks@.len() ==> starting_entry_ok(
                    #[trigger] random_unlocks@[j],
                ),
            random_unlocks@.len() == sp,
            0 <= sp <= num_starting,
            n_start == num_starting as int,
            1 <= n_start <= 5,
            hub1_slots@.len() == 5,
            forall|k: int|
                0 <= k < random_unlocks@.len() ==> (#[trigger] random_unlocks@[k]).0.1
                    == UnlockStage::One && random_unlocks@[k].1 == Some(
                    UnlockRequirementItem { item_type: RequiredItem::Trophy, count: 0 },
                ),
        decreases hub1_slots@.len() - sp,
    {
        let slot = hub1_slots[sp];
        let actual = match find_link(warppad_links, slot) {
            Some(a) => a,
            None => {
                return Err(GenerationError::MalformedWorld);
            },
        };
        random_unlocks.push(
            (
                (actual, UnlockStage::One),
                Some(UnlockRequirementItem { item_type: RequiredItem::Trophy, count: 0 }),
            ),
        );
        inventory.add_track(actual);

        if actual.is_cup() {
            let loc = ItemLocation { levelid: actual, racetype: RaceType::GemCup };
            match take_by_key(&mut zeroed, loc) {
                Some(item) => {
                    inventory.add_item(item);
                },
                None => {
                    return Err(GenerationError::InternalInconsistency);
                },
            }
            filled.push(loc);
        } else if actual.is_relic_only() {
            let loc_s = ItemLocation { levelid: actual, racetype: RaceType::RelicRaceSapphire };
            match take_by_key(&mut zeroed, loc_s) {
                Some(item) => {
                    inventory.add_item(item);
                },
                None => {
                    return Err(GenerationError::InternalInconsistency);
                },
            }
            filled.push(loc_s);
            let loc_g = ItemLocation { levelid: actual, racetype: RaceType::RelicRaceGold };
            match take_by_key(&mut zeroed, loc_g) {
                Some(item) => {
                    inventory.add_item(item);
                },
                None => {
                    return Err(GenerationError::InternalInconsistency);
                },
            }
            filled.push(loc_g);
            let loc_p = ItemLocation { levelid: actual, racetype: RaceType::RelicRacePlatinum };
            match take_by_key(&mut zeroed, loc_p) {
                Some(item) => {
                    let plat_in_pool = match opt_reward_shuffle {
                        Some(rs) => rs.include_platinum_relics,
                        None => false,
                    };
                    if plat_in_pool {
                        inventory.add_item(item);
                    }
                },
                None => {
                    return Err(GenerationError::InternalInconsistency);
                },
            }
            filled.push(loc_p);
        } else if actual.is_arena() {
            let loc = ItemLocation { levelid: actual, racetype: RaceType::CtrOrCrystalChallenge };
            match take_by_key(&mut zeroed, loc) {
                Some(item) => {
                    inventory.add_item(item);
                },
                None => {
                    return Err(GenerationError::InternalInconsistency);
                },
            }
            filled.push(loc);
        } else {
            let loc = ItemLocation { levelid: actual, racetype: RaceType::TrophyRace };
            match take_by_key(&mut zeroed, loc) {
                Some(item) => {
                    inventory.add_item(item);
                },
                None => {
                    return Err(GenerationError::InternalInconsistency);
                },
            }
            filled.push(loc);
            activate_second_stage(&mut active, &second_stage, actual);
        }
        sp = sp + 1;
    }

    // Assign the remaining locations a requirement one by one, drawn from
    // the items currently in hand.
    while zeroed.len() > 0
        invariant
            inventory@.wf(),
            forall|j: int|
                0 <= j < random_unlocks@.len() ==> starting_entry_ok(
                    #[trigger] random_unlocks@[j],
                ),
            1 <= n_start <= 5,
            n_start <= random_unlocks@.len(),
            forall|k: int|
                0 <= k < n_start ==> (#[trigger] random_unlocks@[k]).0.1 == UnlockStage::One
                    && random_unlocks@[k].1 == Some(
                    UnlockRequirementItem { item_type: RequiredItem::Trophy, count: 0 },
                ),
        decreases zeroed@.len(),
    {
        let ghost zeroed_before = zeroed@;

        // All reachable locations whose gates are not decided yet.
        let mut reachable: Vec<ItemLocation> = Vec::new();
        let mut a: usize = 0;
        while a < active.len()
            decreases active@.len() - a,
        {
            let entry = &active[a];
            if !contains_location(&filled, entry.0) && inventory.does_pass_requirements(&entry.1)
            {
                reachable.push(entry.0);
            }
            a = a + 1;
        }
        if reachable.len() == 0 {
            return Err(GenerationError::InternalInconsistency);
        }
        if reachable.len() > u32::MAX as usize {
            return Err(GenerationError::InternalInconsistency);
        }
        let pick = rng.choose_index(reachable.len());
        let chosen = reachable[pick];

        // Boss races keep their configured gates; everything else gets an
        // invented item requirement.
        if chosen.racetype != RaceType::BossRace {
            let items = inventory.get_items();
            let mut possible: Vec<(RaceReward, u8)> = Vec::new();
            let mut q: usize = 0;
            while q < items.len()
                invariant
                    0 <= q <= items@.len(),
                    possible@.len() <= q,
                    forall|j: int|
                        0 <= j < possible@.len() ==> (#[trigger] possible@[j]).1 <= 18
                            && (possible@[j].0 == RaceReward::Key ==> possible@[j].1 <= 4),
                decreases items@.len() - q,
            {
                let (item, count) = items[q];
                let plat_ok = match opt_reward_shuffle {
                    Some(rs) => rs.include_platinum_relics,
                    None => false,
                };
                let gems_ok = match opt_reward_shuffle {
                    Some(rs) => rs.include_gems,
                    None => false,
                };
                if (item != RaceReward::PlatinumRelic || plat_ok) && (!item.is_gem() || gems_ok)
                    && count > 0 && count <= 18 && (item != RaceReward::Key || count <= 4) {
                    possible.push((item, count));
                }
                q = q + 1;
            }
            if possible.len() == 0 {
                return Err(GenerationError::InternalInconsistency);
            }

            // Weighted draw over the item families in hand.
            let mut total: u32 = 0;
            let mut t: usize = 0;
            while t < possible.len()
                invariant
                    total <= 100 * t,
                    0 <= t <= possible@.len(),
                    possible@.len() <= 15,
                decreases possible@.len() - t,
            {
                total = total + weight_of(possible[t].0) as u32;
                t = t + 1;
            }
            if total == 0 {
                return Err(GenerationError::InternalInconsistency);
            }
            let draw = rng.next_below(total);
            let mut acc: u32 = 0;
            let mut chosen_idx: usize = 0;
            let mut ci: usize = 0;
            while ci < possible.len()
                invariant
                    chosen_idx < possible@.len() || chosen_idx == 0,
                    possible@.len() > 0,
                    possible@.len() <= 15,
                    0 <= ci <= possible@.len(),
                    acc <= 100 * ci,
                decreases possible@.len() - ci,
            {
                let wgt = weight_of(possible[ci].0) as u32;
                if acc <= draw && draw < acc + wgt {
                    chosen_idx = ci;
                }
                acc = acc + wgt;
                ci = ci + 1;
            }
            let (chosen_item, chosen_count) = possible[chosen_idx];
            let mut required_item = match RequiredItem::of_reward(chosen_item) {
                Some(it) => it,
                None => {
                    return Err(GenerationError::InternalInconsistency);
                },
            };
            let mut required_amount: u8 = chosen_count;

            // Probabilistic generalization to an any-of-family aggregate,
            // with a family-specific discount on the required count.
            let is_token = matches!(
                chosen_item,
                RaceReward::RedCtrToken | RaceReward::GreenCtrToken | RaceReward::BlueCtrToken
                    | RaceReward::YellowCtrToken | RaceReward::PurpleCtrToken
            );
            let is_relic = matches!(
                chosen_item,
                RaceReward::SapphireRelic | RaceReward::GoldRelic | RaceReward::PlatinumRelic
            );
            if is_token {
                if rng.next_below(100) < 33 {
                    required_item = RequiredItem::AnyCtrToken;
                    let sum: u32 = inventory.count_of(RequiredItem::AnyCtrToken);
                    let capped: u32 = if sum > 20 {
                        20
                    } else {
                        sum
                    };
                    required_amount = ((3 * capped + 4) / 5) as u8;
                }
            } else if is_relic {
                if rng.next_below(100) < 20 {
                    required_item = RequiredItem::AnyRelic;
                    let plat_ok = match opt_reward_shuffle {
                        Some(rs) => rs.include_platinum_relics,
                        None => false,
                    };
                    let mut sum: u32 = inventory.count_of(RequiredItem::SapphireRelic)
                        + inventory.count_of(RequiredItem::GoldRelic);
                    if plat_ok {
                        sum = sum + inventory.count_of(RequiredItem::PlatinumRelic);
                    }
                    let capped: u32 = if sum > 54 {
                        54
                    } else {
                        sum
                    };
                    required_amount = ((3 * capped + 9) / 10) as u8;
                }
            } else if chosen_item.is_gem() {
                if rng.next_below(100) < 80 {
                    required_item = RequiredItem::AnyGem;
                    required_amount = 1;
                }
            }

            random_unlocks.push(
                (
                    (chosen.levelid, get_unlock_stage(chosen)),
                    Some(
                        UnlockRequirementItem {
                            item_type: required_item,
                            count: required_amount,
                        },
                    ),
                ),
            );
        }

        // Collect the chosen location's reward(s) and open what follows it.
        inventory.add_track(chosen.levelid);
        match take_by_key(&mut zeroed, chosen) {
            Some(item) => {
                inventory.add_item(item);
            },
            None => {
                return Err(GenerationError::InternalInconsistency);
            },
        }
        if chosen.racetype == RaceType::RelicRaceSapphire || chosen.racetype
            == RaceType::RelicRaceGold || chosen.racetype == RaceType::RelicRacePlatinum {
            let tiers: [RaceType; 3] = [
                RaceType::RelicRaceSapphire,
                RaceType::RelicRaceGold,
                RaceType::RelicRacePlatinum,
            ];
            let mut ti: usize = 0;
            while ti < 3
                invariant
                    inventory@.wf(),
                    zeroed@.len() <= zeroed_before.len() - 1,
                decreases 3 - ti,
            {
                let tier = tiers[ti];
                if tier != chosen.racetype {
                    let inferred = ItemLocation { levelid: chosen.levelid, racetype: tier };
                    match take_by_key(&mut zeroed, inferred) {
                        Some(item) => {
                            inventory.add_item(item);
                        },
                        None => {},
                    }
                    filled.push(inferred);
                }
                ti = ti + 1;
            }
        }
        if chosen.racetype != RaceType::BossRace && get_unlock_stage(chosen) == UnlockStage::One
        {
            activate_second_stage(&mut active, &second_stage, chosen.levelid);
        }
        filled.push(chosen);
    }

    // Post-pass: with majority probability scale a requirement's count down;
    // otherwise relax a four-key gate to three keys where the operator
    // forbade demanding all four keys at once.
    let without4 = matches!(requirement_setting, WarppadUnlockRequirements::RandomWithout4Keys);
    let mut post: Vec<((LevelID, UnlockStage), Option<UnlockRequirementItem>)> = Vec::new();
    let mut p: usize = 0;
    while p < random_unlocks.len()
        invariant
            0 <= p <= random_unlocks@.len(),
            post@.len() == p,
            forall|j: int|
                0 <= j < random_unlocks@.len() ==> starting_entry_ok(
                    #[trigger] random_unlocks@[j],
                ),
            forall|j: int|
                0 <= j < p ==> post_entry_ok(#[trigger] post@[j], without4, random_unlocks@[j].0),
            1 <= n_start <= 5,
            n_start <= random_unlocks@.len(),
            forall|k: int|
                0 <= k < n_start ==> (#[trigger] random_unlocks@[k]).0.1 == UnlockStage::One
                    && random_unlocks@[k].1 == Some(
                    UnlockRequirementItem { item_type: RequiredItem::Trophy, count: 0 },
                ),
            forall|k: int|
                0 <= k < p && k < n_start ==> (#[trigger] post@[k]).0.1 == UnlockStage::One
                    && post@[k].1 == Some(
                    UnlockRequirementItem { item_type: RequiredItem::Trophy, count: 0 },
                ),
        decreases random_unlocks@.len() - p,
    {
        let (key, opt_req) = random_unlocks[p];
        let req = match opt_req {
            Some(x) => x,
            None => {
                return Err(GenerationError::InternalInconsistency);
            },
        };
        let d = rng.next_below(100);
        let new_req: UnlockRequirementItem = if d < 66 {
            if req.count != 0 {
                UnlockRequirementItem { item_type: req.item_type, count: scale_down(req.count) }
            } else {
                req
            }
        } else if req.item_type == RequiredItem::Key && req.count == 4 && without4 {
            UnlockRequirementItem { item_type: RequiredItem::Key, count: 3 }
        } else {
            req
        };
        post.push((key, Some(new_req)));
        p = p + 1;
    }

    // The persisted format addresses pads by their vanilla slot: remap each
    // current track back through the inverse of the link mapping.
    let mut fixed: Vec<((LevelID, UnlockStage), Option<UnlockRequirementItem>)> = Vec::new();
    let mut m: usize = 0;
    while m < post.len()
        invariant
            0 <= m <= post@.len(),
            fixed@.len() == m,
            forall|j: int|
                0 <= j < post@.len() ==> post_entry_ok(
                    #[trigger] post@[j],
                    without4,
                    random_unlocks@[j].0,
                ),
            random_unlocks@.len() == post@.len(),
            forall|j: int|
                0 <= j < random_unlocks@.len() ==> starting_entry_ok(
                    #[trigger] random_unlocks@[j],
                ),
            invented_ok(fixed@, *requirement_setting, warppad_links@),
            without4 == (*requirement_setting == WarppadUnlockRequirements::RandomWithout4Keys),
            1 <= n_start <= 5,
            n_start <= post@.len(),
            forall|k: int|
                0 <= k < n_start ==> (#[trigger] post@[k]).0.1 == UnlockStage::One && post@[k].1
                    == Some(UnlockRequirementItem { item_type: RequiredItem::Trophy, count: 0 }),
            forall|k: int|
                0 <= k < m && k < n_start ==> (#[trigger] fixed@[k]).0.1 == UnlockStage::One
                    && fixed@[k].1 == Some(
                    UnlockRequirementItem { item_type: RequiredItem::Trophy, count: 0 },
                ),
        decreases post@.len() - m,
    {
        let ((current, stage), v) = post[m];
        let slot = match find_slot_of(warppad_links, current) {
            Some(sl) => sl,
            None => {
                return Err(GenerationError::MalformedWorld);
            },
        };
        let ghost pre_fixed = fixed@;
        fixed.push(((slot, stage), v));
        proof {
            assert(fixed@.drop_last() =~= pre_fixed);
            assert forall|i: int| 0 <= i < fixed@.len() implies {
                &&& (#[trigger] fixed@[i]).1 is Some
                &&& (fixed@[i].1.unwrap().item_type == RequiredItem::Key
                    ==> fixed@[i].1.unwrap().count <= 4)
                &&& ((*requirement_setting) == WarppadUnlockRequirements::RandomWithout4Keys
                    && fixed@[i].1.unwrap().item_type == RequiredItem::Key
                    ==> fixed@[i].1.unwrap().count <= 3)
                &&& (exists|j: int|
                    0 <= j < warppad_links@.len() && (#[trigger] warppad_links@[j]).0
                        == fixed@[i].0.0)
            } by {
                if i < fixed@.len() - 1 {
                    assert(invented_ok(
                        fixed@.drop_last(),
                        *requirement_setting,
                        warppad_links@,
                    ));
                    assert(fixed@.drop_last()[i] == fixed@[i]);
                } else {
                    assert(post_entry_ok(post@[m as int], without4, random_unlocks@[m as int].0));
                }
            }
        }
        m = m + 1;
    }
    proof {
        assert(has_free_start_gates(fixed@)) by {
            assert(free_start_gates(fixed@, n_start));
        }
    }
    Ok(fixed)
}

/// A freshly generated entry: the requirement is present and its key
/// threshold, where it asks keys, stays within the four keys that exist.
pub open spec fn starting_entry_ok(
    entry: ((LevelID, UnlockStage), Option<UnlockRequirementItem>),
) -> bool {
    &&& entry.1 is Some
    &&& (entry.1.unwrap().item_type == RequiredItem::Key ==> entry.1.unwrap().count <= 4)
}

/// A post-processed entry additionally honors the four-key relaxation.
pub open spec fn post_entry_ok(
    entry: ((LevelID, UnlockStage), Option<UnlockRequirementItem>),
    without4: bool,
    key: (LevelID, UnlockStage),
) -> bool {
    &&& entry.0 == key
    &&& entry.1 is Some
    &&& (entry.1.unwrap().item_type == RequiredItem::Key ==> entry.1.unwrap().count <= 4)
    &&& (without4 && entry.1.unwrap().item_type == RequiredItem::Key ==> entry.1.unwrap().count
        <= 3)
}

/// The slot of the first pad currently leading to `current`: one step of the
/// structural inverse of the link mapping, so a requirement generated at a
/// track is keyed back to the vanilla slot of the pad that leads there.
fn find_slot_of(links: &Vec<(LevelID, LevelID)>, current: LevelID) -> (r: Option<LevelID>)
    ensures
        (r matches Some(slot) ==> exists|j: int|
            0 <= j < links@.len() && (#[trigger] links@[j]) == (slot, current)),
        r is None ==> forall|j: int| 0 <= j < links@.len() ==> (#[trigger] links@[j]).1 != current,
{
    let mut i: usize = 0;
    while i < links.len()
        invariant
            0 <= i <= links@.len(),
            forall|j: int| 0 <= j < i ==> (#[trigger] links@[j]).1 != current,
        decreases links@.len() - i,
    {
        let (k, v) = links[i];
        if v == current {
            proof {
                assert(links@[i as int] == (k, current));
            }
            return Some(k);
        }
        i = i + 1;
    }
    None
}

/// Moves the second-stage entries of `level` into the assignable list, once
/// each.
fn activate_second_stage(
    active: &mut Vec<(ItemLocation, Vec<UnlockRequirement>)>,
    second_stage: &Vec<(ItemLocation, Vec<UnlockRequirement>)>,
    level: LevelID,
)
{
    let mut i: usize = 0;
    while i < second_stage.len()
        decreases second_stage@.len() - i,
    {
        let entry = &second_stage[i];
        if entry.0.levelid == level {
            let mut already = false;
            let mut a: usize = 0;
            while a < active.len()
                decreases active@.len() - a,
            {
                if active[a].0 == entry.0 {
                    already = true;
                }
                a = a + 1;
            }
            if !already {
                active.push((entry.0, copy_reqs(&entry.1)));
            }
        }
        i = i + 1;
    }
}

/// Whether the list holds an entry keyed `loc`.
fn contains_location(v: &Vec<ItemLocation>, loc: ItemLocation) -> (r: bool)
    ensures
        r == v@.contains(loc),
{
    let mut i: usize = 0;
    while i < v.len()
        invariant
            0 <= i <= v@.len(),
            forall|j: int| 0 <= j < i ==> v@[j] != loc,
        decreases v@.len() - i,
    {
        if v[i] == loc {
            return true;
        }
        i = i + 1;
    }
    false
}

} // verus!
