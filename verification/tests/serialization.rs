use ctr_randomizer::data::SettingID;
use ctr_randomizer::encode::get_database_vec;
use ctr_randomizer::settings::SettingValue;
use ctr_randomizer::randomize::{get_randomized_game, get_vanilla_game};
use ctr_randomizer::settings::{
    BossGarageRequirements, FinalOxideUnlock, GeneralSettings, QualityOfLifeSettings,
    RandomizationSettings, RelicTime, RewardShuffle, SeedSettings, WarppadShuffle,
    WarppadUnlockRequirements,
};

fn full_settings() -> SeedSettings {
    SeedSettings {
        randomization: RandomizationSettings {
            shuffle_adventure: true,
            shuffle_race_rewards: Some(RewardShuffle {
                include_keys: true,
                include_gems: true,
                include_platinum_relics: true,
            }),
            warppad_shuffle: Some(WarppadShuffle {
                include_battle_arenas: true,
                include_gem_cups: true,
            }),
            warppad_unlock_requirements: WarppadUnlockRequirements::Vanilla,
            bossgarage_unlock_requirements: BossGarageRequirements::SameHubTracks,
            autounlock_ctrchallenge_relicrace: false,
        },
        general: GeneralSettings {
            rr_required_minimum_time: RelicTime::GoldTime,
            rr_require_perfects: true,
            oxide_final_challenge_unlock: FinalOxideUnlock::GoldAndPlatinumRelics18,
        },
        qol: QualityOfLifeSettings {
            skip_mask_hints: true,
            autoskip_podium_cutscenes: true,
            skip_mask_congrats: false,
        },
        write_spoilerlog: false,
        write_patchfile: false,
    }
}

#[test]
fn database_framing_and_order() {
    let game = get_vanilla_game();
    let bytes = get_database_vec(&game);
    // 27 links + 99 rewards + 43 unlock stages + 9 settings, all keys
    // distinct, each a 6-byte record between the fixed markers.
    assert_eq!(bytes.len(), 6 + 6 * 178 + 8);
    assert_eq!(&bytes[0..6], &[0xDB, 0xDA, 0x00, 0x0D, 0xDB, 0xDA]);
    let n = bytes.len();
    assert_eq!(
        &bytes[n - 8..n],
        &[0xDB, 0xDA, 0xAA, 0x0D, 0xDB, 0xDA, 0xFF, 0xFF]
    );
    // Records are sorted strictly ascending by their 32-bit key.
    let mut prev: Option<u32> = None;
    let mut i = 6;
    while i + 6 <= n - 8 {
        let key = ((bytes[i + 1] as u32) << 24)
            | ((bytes[i] as u32) << 16)
            | ((bytes[i + 3] as u32) << 8)
            | (bytes[i + 2] as u32);
        if let Some(p) = prev {
            assert!(p < key, "record keys out of order");
        }
        prev = Some(key);
        i += 6;
    }
}

#[test]
fn same_seed_same_settings_byte_identical() {
    let settings = full_settings();
    let a = get_randomized_game(987654321, &settings).expect("generation should succeed");
    let b = get_randomized_game(987654321, &settings).expect("generation should succeed");
    assert_eq!(get_database_vec(&a), get_database_vec(&b));
    assert_eq!(a.game_world, b.game_world);
    assert_eq!(a.race_rewards, b.race_rewards);
    assert_eq!(a.settings, b.settings);
}

#[test]
fn different_seeds_differ() {
    let settings = full_settings();
    let a = get_randomized_game(1, &settings).expect("generation should succeed");
    let b = get_randomized_game(2, &settings).expect("generation should succeed");
    assert_ne!(get_database_vec(&a), get_database_vec(&b));
}

#[test]
fn settings_decoding() {
    assert_eq!(
        WarppadUnlockRequirements::try_from(0),
        Ok(WarppadUnlockRequirements::Vanilla)
    );
    assert_eq!(
        WarppadUnlockRequirements::try_from(2),
        Ok(WarppadUnlockRequirements::RandomWithout4Keys)
    );
    assert_eq!(WarppadUnlockRequirements::try_from(9), Err(()));
    assert_eq!(
        BossGarageRequirements::try_from(1),
        Ok(BossGarageRequirements::SameHubTracks)
    );
    assert_eq!(BossGarageRequirements::try_from(-1), Err(()));
    assert_eq!(RelicTime::try_from(2), Ok(RelicTime::PlatinumTime));
    assert_eq!(RelicTime::try_from(3), Err(()));
    assert_eq!(
        FinalOxideUnlock::try_from(1),
        Ok(FinalOxideUnlock::GoldAndPlatinumRelics18)
    );
    assert_eq!(FinalOxideUnlock::try_from(5), Err(()));
}

#[test]
fn seed_hash_lands_in_settings_table() {
    let settings = full_settings();
    let game = get_randomized_game(0xABCD1234, &settings).expect("generation should succeed");
    let h1 = game
        .settings
        .iter()
        .find(|e| e.0 == SettingID::SeedHash1)
        .unwrap()
        .1;
    let h2 = game
        .settings
        .iter()
        .find(|e| e.0 == SettingID::SeedHash2)
        .unwrap()
        .1;
    assert_eq!(h1, SettingValue::SeedHashPart(0xABCD));
    assert_eq!(h2, SettingValue::SeedHashPart(0x1234));
}

#[test]
fn patch_round_trip() {
    let old_rom: Vec<u8> = (0u32..4096).map(|i| (i % 251) as u8).collect();
    let mut new_rom = old_rom.clone();
    new_rom[100] = 0xAB;
    new_rom[2000] = 0xCD;
    new_rom.extend_from_slice(&[1, 2, 3, 4]);
    let patch = ctr_randomizer::patching::create_patchfile(&old_rom, &new_rom)
        .expect("diff should succeed");
    let patched = ctr_randomizer::patching::apply_patchfile(&old_rom, &patch)
        .expect("patch should apply");
    assert_eq!(patched, new_rom);
    assert!(ctr_randomizer::patching::apply_patchfile(&old_rom, &vec![9u8, 9, 9]).is_err());
}
