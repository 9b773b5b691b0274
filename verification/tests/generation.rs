use ctr_randomizer::data::{ItemLocation, LevelID, RaceReward, RaceType, UnlockStage};
use ctr_randomizer::prng::GameRng;
use ctr_randomizer::randomize::{get_randomized_game, get_vanilla_game};
use ctr_randomizer::settings::{
    BossGarageRequirements, FinalOxideUnlock, GeneralSettings, QualityOfLifeSettings,
    RandomizationSettings, RelicTime, RewardShuffle, SeedSettings, WarppadShuffle,
    WarppadUnlockRequirements,
};
use ctr_randomizer::world::{get_vanilla_gameworld, BossRaceRewards, Rewards};

fn base_settings() -> SeedSettings {
    SeedSettings {
        randomization: RandomizationSettings {
            shuffle_adventure: true,
            shuffle_race_rewards: None,
            warppad_shuffle: None,
            warppad_unlock_requirements: WarppadUnlockRequirements::Vanilla,
            bossgarage_unlock_requirements: BossGarageRequirements::Original4Tracks,
            autounlock_ctrchallenge_relicrace: false,
        },
        general: GeneralSettings {
            rr_required_minimum_time: RelicTime::SapphireTime,
            rr_require_perfects: false,
            oxide_final_challenge_unlock: FinalOxideUnlock::SappireRelics18,
        },
        qol: QualityOfLifeSettings {
            skip_mask_hints: true,
            autoskip_podium_cutscenes: false,
            skip_mask_congrats: false,
        },
        write_spoilerlog: false,
        write_patchfile: false,
    }
}

#[test]
fn vanilla_links_are_identity() {
    let world = get_vanilla_gameworld();
    let links = world.get_warppad_links();
    assert_eq!(links.len(), 27);
    for (slot, target) in links {
        assert_eq!(slot, target);
    }
}

#[test]
fn vanilla_reward_table_shape() {
    let game = get_vanilla_game();
    assert_eq!(game.race_rewards.len(), 99);
    let trophies = game
        .race_rewards
        .iter()
        .filter(|e| e.2 == RaceReward::Trophy)
        .count();
    assert_eq!(trophies, 16);
    let keys = game
        .race_rewards
        .iter()
        .filter(|e| e.2 == RaceReward::Key)
        .count();
    assert_eq!(keys, 4);
    assert_eq!(game.settings.len(), 9);
}

#[test]
fn terminal_reward_fixed_at_final_garage() {
    let world = get_vanilla_gameworld();
    assert_eq!(
        world.gemstone_valley.boss_garage.reward,
        Rewards::BossRaceRewards(BossRaceRewards {
            single_reward: RaceReward::BeatTheGame
        })
    );
}

#[test]
fn scenario_locked_categories_keep_vanilla_links() {
    // seed 12345, adventure shuffled, arenas and cups left out of the link
    // shuffle, rewards kept, vanilla unlock costs.
    let mut settings = base_settings();
    settings.randomization.warppad_shuffle = Some(WarppadShuffle {
        include_battle_arenas: false,
        include_gem_cups: false,
    });
    let game = get_randomized_game(12345, &settings).expect("generation should succeed");

    let links = game.game_world.get_warppad_links();
    assert_eq!(links.len(), 27);
    // Arena and cup pads keep their vanilla targets; the rest is a valid
    // permutation of the remaining tracks.
    let mut seen: Vec<LevelID> = Vec::new();
    for (slot, target) in &links {
        if matches!(
            slot,
            LevelID::SkullRock | LevelID::RampageRuins | LevelID::RockyRoad | LevelID::NitroCourt
                | LevelID::CupRed | LevelID::CupGreen | LevelID::CupBlue | LevelID::CupYellow
                | LevelID::CupPurple
        ) {
            assert_eq!(slot, target);
        }
        assert!(!seen.contains(target), "duplicate shuffle target");
        seen.push(*target);
    }
    assert_eq!(seen.len(), 27);

    // Unlock costs stay vanilla: each pad carries the vanilla requirement
    // of its slot, keyed in the table by the track it now leads to.
    let vanilla = get_vanilla_gameworld();
    let vanilla_unlocks = vanilla.get_warppad_unlocks();
    let unlocks = game.game_world.get_warppad_unlocks();
    let find = |table: &Vec<_>, level: LevelID, stage| -> Option<_> {
        let t: &Vec<(
            (LevelID, ctr_randomizer::data::UnlockStage),
            Option<ctr_randomizer::data::UnlockRequirementItem>,
        )> = table;
        t.iter().find(|((l, s), _)| *l == level && *s == stage).map(|e| e.1)
    };
    for (slot, target) in &links {
        assert_eq!(
            find(&unlocks, *target, UnlockStage::One),
            find(&vanilla_unlocks, *slot, UnlockStage::One)
        );
    }
    // The reward table holds the vanilla rewards: the flat order follows the
    // pads hub by hub, so compare the tables keyed by location and race.
    let mut got = game.race_rewards.clone();
    let mut want = vanilla.get_race_rewards();
    got.sort_by_key(|e| (e.0.num(), e.1.num(), e.2.num()));
    want.sort_by_key(|e| (e.0.num(), e.1.num(), e.2.num()));
    assert_eq!(got, want);
}

#[test]
fn no_gem_cup_lands_on_five_gem_pad() {
    for seed in 1u32..12 {
        let mut settings = base_settings();
        settings.randomization.warppad_shuffle = Some(WarppadShuffle {
            include_battle_arenas: true,
            include_gem_cups: true,
        });
        let game = get_randomized_game(seed, &settings).expect("generation should succeed");
        let links = game.game_world.get_warppad_links();
        let tt = links
            .iter()
            .find(|(slot, _)| *slot == LevelID::TurboTrack)
            .expect("five-gem pad present")
            .1;
        assert!(
            !matches!(
                tt,
                LevelID::CupRed | LevelID::CupGreen | LevelID::CupBlue | LevelID::CupYellow
                    | LevelID::CupPurple
            ),
            "gem cup landed on the five-gem pad for seed {seed}"
        );
    }
}

#[test]
fn full_randomization_succeeds_and_pins_sentinel() {
    for seed in [3u32, 77, 20260101] {
        let mut settings = base_settings();
        settings.randomization.warppad_shuffle = Some(WarppadShuffle {
            include_battle_arenas: true,
            include_gem_cups: true,
        });
        settings.randomization.shuffle_race_rewards = Some(RewardShuffle {
            include_keys: true,
            include_gems: true,
            include_platinum_relics: true,
        });
        let game = get_randomized_game(seed, &settings).expect("generation should succeed");
        let sentinel = game
            .race_rewards
            .iter()
            .find(|e| e.0 == LevelID::OxideStation && e.1 == RaceType::BossRace)
            .expect("final boss race present");
        assert_eq!(sentinel.2, RaceReward::BeatTheGame);
    }
}

#[test]
fn prng_streams_are_reproducible() {
    let mut a = GameRng::new(42);
    let mut b = GameRng::new(42);
    for _ in 0..32 {
        assert_eq!(a.next_u32(), b.next_u32());
    }
    let mut c = GameRng::new(43);
    let mut any_diff = false;
    let mut a2 = GameRng::new(42);
    for _ in 0..32 {
        if a2.next_u32() != c.next_u32() {
            any_diff = true;
        }
    }
    assert!(any_diff, "distinct seeds should give distinct streams");
}

#[test]
fn shuffle_keeps_contents() {
    let mut rng = GameRng::new(9);
    let mut v: Vec<u32> = (0..50).collect();
    rng.shuffle(&mut v);
    assert_eq!(v.len(), 50);
    let mut sorted = v.clone();
    sorted.sort();
    let expect: Vec<u32> = (0..50).collect();
    assert_eq!(sorted, expect);
}

#[test]
fn location_in_world() {
    let loc = ItemLocation {
        levelid: LevelID::CrashCove,
        racetype: RaceType::TrophyRace,
    };
    assert_eq!(loc.levelid.num(), 3);
    assert_eq!(loc.racetype.num(), 98);
}

#[test]
fn random_gating_pipeline_keeps_world_completable() {
    // Invented gating over kept rewards: a generation only succeeds when the
    // freshly gated world is certified completable from an empty inventory;
    // a seed whose invented gates deadlock is reported as a failure and the
    // caller retries with another seed.
    let mut successes = 0;
    for seed in 1u32..=40 {
        let mut settings = base_settings();
        settings.randomization.warppad_unlock_requirements =
            WarppadUnlockRequirements::RandomWith4Keys;
        let game = match get_randomized_game(seed, &settings) {
            Ok(g) => g,
            Err(_) => continue,
        };
        successes += 1;
        // Replay: the final world's own graph with its own rewards must be
        // fully coverable.
        let world = &game.game_world;
        let location_list = ctr_randomizer::locations::get_location_list(
            &world.get_warppad_links(),
            &world.get_warppad_unlocks(),
            &world.get_garage_requirements(),
            &world.get_hub_requirements(),
        )
        .expect("graph should build");
        let placement =
            ctr_randomizer::requirements::rewards_as_locations(&game.race_rewards);
        let mut inventory = ctr_randomizer::inventory::PlayerInventory::new();
        let mut visited = vec![false; location_list.len()];
        let mut changed = true;
        while changed {
            changed = false;
            for (i, (loc, reqs)) in location_list.iter().enumerate() {
                if !visited[i] && inventory.does_pass_requirements(reqs) {
                    visited[i] = true;
                    changed = true;
                    if let Some(e) = placement.iter().find(|e| e.0 == *loc) {
                        inventory.add_item(e.1);
                    }
                    if loc.racetype == RaceType::TrophyRace {
                        inventory.add_track(loc.levelid);
                    }
                }
            }
        }
        assert!(visited.iter().all(|v| *v), "gated world unreachable for seed {seed}");
    }
    assert!(successes > 0, "no seed produced a completable gated world");
}
