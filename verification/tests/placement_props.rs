use ctr_randomizer::data::{LevelID, RaceReward, RaceType, UnlockRequirement,
    UnlockRequirementItem, RequiredItem};
use ctr_randomizer::inventory::PlayerInventory;
use ctr_randomizer::placement::{build_item_pool, get_shuffled_rewards};
use ctr_randomizer::prng::GameRng;
use ctr_randomizer::requirements::get_random_warppad_unlocks;
use ctr_randomizer::settings::{RewardShuffle, WarppadUnlockRequirements};
use ctr_randomizer::world::get_vanilla_gameworld;

#[test]
fn item_pool_composition() {
    let all_off = RewardShuffle {
        include_keys: false,
        include_gems: false,
        include_platinum_relics: false,
    };
    let pool = build_item_pool(&all_off);
    // 16 trophies + 20 tokens + 18 sapphire + 18 gold relics.
    assert_eq!(pool.len(), 72);
    let all_on = RewardShuffle {
        include_keys: true,
        include_gems: true,
        include_platinum_relics: true,
    };
    let pool = build_item_pool(&all_on);
    assert_eq!(pool.len(), 72 + 4 + 5 + 18);
}

#[test]
fn minimal_pool_fills_every_open_slot_exactly() {
    // With keys, gems and platinum relics kept vanilla, exactly the 72
    // pooled items land in the 72 non-pre-filled slots: no leftover, no
    // unfilled slot.
    let world = get_vanilla_gameworld();
    let rs = RewardShuffle {
        include_keys: false,
        include_gems: false,
        include_platinum_relics: false,
    };
    let mut rng = GameRng::new(4242);
    let placement = get_shuffled_rewards(
        &mut rng,
        &rs,
        &world.get_warppad_links(),
        &world.get_warppad_unlocks(),
        &world.get_garage_requirements(),
        &world.get_hub_requirements(),
    )
    .expect("placement should succeed");

    // Every location holds exactly one reward.
    assert_eq!(placement.len(), 100);
    // The pre-filled categories sit at their vanilla slots.
    let at = |levelid: LevelID, racetype: RaceType| {
        placement
            .iter()
            .find(|e| e.0.levelid == levelid && e.0.racetype == racetype)
            .expect("slot present")
            .1
    };
    assert_eq!(at(LevelID::CupRed, RaceType::GemCup), RaceReward::RedGem);
    assert_eq!(at(LevelID::CupGreen, RaceType::GemCup), RaceReward::GreenGem);
    assert_eq!(at(LevelID::CupBlue, RaceType::GemCup), RaceReward::BlueGem);
    assert_eq!(at(LevelID::CupYellow, RaceType::GemCup), RaceReward::YellowGem);
    assert_eq!(at(LevelID::CupPurple, RaceType::GemCup), RaceReward::PurpleGem);
    assert_eq!(at(LevelID::RoosTubes, RaceType::BossRace), RaceReward::Key);
    assert_eq!(at(LevelID::PapusPyramid, RaceType::BossRace), RaceReward::Key);
    assert_eq!(at(LevelID::DragonMines, RaceType::BossRace), RaceReward::Key);
    assert_eq!(at(LevelID::HotAirSkyway, RaceType::BossRace), RaceReward::Key);
    assert_eq!(
        at(LevelID::OxideStation, RaceType::BossRace),
        RaceReward::BeatTheGame
    );
    assert_eq!(
        at(LevelID::CrashCove, RaceType::RelicRacePlatinum),
        RaceReward::PlatinumRelic
    );

    // The shuffled pool is fully consumed: 16 trophies, 20 tokens, 18+18
    // relics, and the 28 pre-filled rewards account for all 100 slots.
    let count = |r: RaceReward| placement.iter().filter(|e| e.1 == r).count();
    assert_eq!(count(RaceReward::Trophy), 16);
    assert_eq!(
        count(RaceReward::RedCtrToken)
            + count(RaceReward::GreenCtrToken)
            + count(RaceReward::BlueCtrToken)
            + count(RaceReward::YellowCtrToken)
            + count(RaceReward::PurpleCtrToken),
        20
    );
    assert_eq!(count(RaceReward::SapphireRelic), 18);
    assert_eq!(count(RaceReward::GoldRelic), 18);
    assert_eq!(count(RaceReward::PlatinumRelic), 18);
    assert_eq!(count(RaceReward::Key), 4);
    assert_eq!(count(RaceReward::BeatTheGame), 1);
}

#[test]
fn pre_fill_is_idempotent_across_seeds() {
    // Toggling gems off places each gem at its own cup, for every seed.
    let world = get_vanilla_gameworld();
    let rs = RewardShuffle {
        include_keys: true,
        include_gems: false,
        include_platinum_relics: true,
    };
    for seed in [1u32, 2, 3, 999] {
        let mut rng = GameRng::new(seed);
        let placement = get_shuffled_rewards(
            &mut rng,
            &rs,
            &world.get_warppad_links(),
            &world.get_warppad_unlocks(),
            &world.get_garage_requirements(),
            &world.get_hub_requirements(),
        )
        .expect("placement should succeed");
        let at = |levelid: LevelID| {
            placement
                .iter()
                .find(|e| e.0.levelid == levelid && e.0.racetype == RaceType::GemCup)
                .expect("cup present")
                .1
        };
        assert_eq!(at(LevelID::CupRed), RaceReward::RedGem);
        assert_eq!(at(LevelID::CupGreen), RaceReward::GreenGem);
        assert_eq!(at(LevelID::CupBlue), RaceReward::BlueGem);
        assert_eq!(at(LevelID::CupYellow), RaceReward::YellowGem);
        assert_eq!(at(LevelID::CupPurple), RaceReward::PurpleGem);
    }
}

#[test]
fn every_location_reachable_from_empty_inventory() {
    // Replay the placement's own discipline: walk the world with an empty
    // inventory, folding in each reachable location's reward, and demand
    // full coverage.
    let world = get_vanilla_gameworld();
    let rs = RewardShuffle {
        include_keys: true,
        include_gems: true,
        include_platinum_relics: true,
    };
    let mut rng = GameRng::new(31337);
    let placement = get_shuffled_rewards(
        &mut rng,
        &rs,
        &world.get_warppad_links(),
        &world.get_warppad_unlocks(),
        &world.get_garage_requirements(),
        &world.get_hub_requirements(),
    )
    .expect("placement should succeed");

    let location_list = ctr_randomizer::locations::get_location_list(
        &world.get_warppad_links(),
        &world.get_warppad_unlocks(),
        &world.get_garage_requirements(),
        &world.get_hub_requirements(),
    )
    .expect("graph should build");

    let mut inventory = PlayerInventory::new();
    let mut visited = vec![false; location_list.len()];
    let mut changed = true;
    while changed {
        changed = false;
        for (i, (loc, reqs)) in location_list.iter().enumerate() {
            if !visited[i] && inventory.does_pass_requirements(reqs) {
                visited[i] = true;
                changed = true;
                let reward = placement
                    .iter()
                    .find(|e| e.0 == *loc)
                    .expect("placed slot")
                    .1;
                inventory.add_item(reward);
                if loc.racetype == RaceType::TrophyRace {
                    inventory.add_track(loc.levelid);
                }
            }
        }
    }
    assert!(visited.iter().all(|v| *v), "an item location stayed unreachable");
}

#[test]
fn invented_requirements_respect_key_caps() {
    let world = get_vanilla_gameworld();
    let rs = Some(RewardShuffle {
        include_keys: true,
        include_gems: true,
        include_platinum_relics: true,
    });
    for seed in [5u32, 6, 7] {
        let mut rng = GameRng::new(seed);
        let unlocks = get_random_warppad_unlocks(
            &mut rng,
            &WarppadUnlockRequirements::RandomWithout4Keys,
            &rs,
            &world.get_warppad_links(),
            &world.get_warppad_unlocks(),
            &world.get_garage_requirements(),
            &world.get_hub_requirements(),
        )
        .expect("generation should succeed");
        assert!(!unlocks.is_empty());
        for ((_, _), req) in &unlocks {
            let req = req.expect("requirement present");
            if req.item_type == RequiredItem::Key {
                assert!(req.count <= 3, "a four-key gate survived");
            }
        }
    }
}

#[test]
fn inventory_respects_caps() {
    let mut inv = PlayerInventory::new();
    for _ in 0..30 {
        inv.add_item(RaceReward::Trophy);
        inv.add_item(RaceReward::Key);
        inv.add_item(RaceReward::RedCtrToken);
        inv.add_item(RaceReward::SapphireRelic);
    }
    assert_eq!(inv.count_of(RequiredItem::Trophy), 16);
    assert_eq!(inv.count_of(RequiredItem::Key), 4);
    assert_eq!(inv.count_of(RequiredItem::RedCtrToken), 4);
    assert_eq!(inv.count_of(RequiredItem::SapphireRelic), 18);
    inv.add_item(RaceReward::RedGem);
    inv.add_item(RaceReward::RedGem);
    assert_eq!(inv.count_of(RequiredItem::AnyGem), 1);
}

#[test]
fn requirement_evaluation() {
    let mut inv = PlayerInventory::new();
    inv.add_item(RaceReward::Trophy);
    inv.add_item(RaceReward::Trophy);
    inv.add_track(LevelID::CrashCove);
    let reqs = vec![UnlockRequirement::Item(UnlockRequirementItem {
        item_type: RequiredItem::Trophy,
        count: 2,
    })];
    assert!(inv.does_pass_requirements(&reqs));
    let reqs = vec![UnlockRequirement::Item(UnlockRequirementItem {
        item_type: RequiredItem::Trophy,
        count: 3,
    })];
    assert!(!inv.does_pass_requirements(&reqs));
    let reqs = vec![UnlockRequirement::LevelList(
        LevelID::CrashCove,
        LevelID::CrashCove,
        LevelID::CrashCove,
        LevelID::RoosTubes,
    )];
    assert!(!inv.does_pass_requirements(&reqs));
    inv.add_track(LevelID::RoosTubes);
    assert!(inv.does_pass_requirements(&reqs));
}

#[test]
fn random_gating_works_without_reward_shuffle() {
    // Random unlock requirements over the vanilla reward layout: the
    // generator learns the layout from the vanilla reward table itself.
    let world = get_vanilla_gameworld();
    for seed in [11u32, 12, 13] {
        let mut rng = GameRng::new(seed);
        let unlocks = get_random_warppad_unlocks(
            &mut rng,
            &WarppadUnlockRequirements::RandomWith4Keys,
            &None,
            &world.get_warppad_links(),
            &world.get_warppad_unlocks(),
            &world.get_garage_requirements(),
            &world.get_hub_requirements(),
        )
        .expect("generation should succeed without a reward shuffle");
        assert!(!unlocks.is_empty());
        for ((_, _), req) in &unlocks {
            let req = req.expect("requirement present");
            if req.item_type == RequiredItem::Key {
                assert!(req.count <= 4);
            }
        }
    }
}
