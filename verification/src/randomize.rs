//! One seed generation end to end: clone the vanilla world, apply the
//! warp-pad shuffle, the unlock-requirement overlay and the boss-garage
//! overlay per the chosen settings, run the reward placement, and produce
//! the final world with its flat settings table.

use vstd::prelude::*;

use crate::data::{
    GenerationError, ItemLocation, LevelID, RaceReward, RaceType, RequiredItem, SettingID,
    UnlockRequirement, UnlockRequirementItem, UnlockStage,
};
use crate::locations::{find_link, lookup_link};
use crate::placement::get_shuffled_rewards;
use crate::prng::GameRng;
use crate::requirements::get_random_warppad_unlocks;
use crate::settings::{
    BossGarageRequirements, FinalOxideUnlock, RelicTime, SeedSettings, SettingValue,
    WarppadShuffle, WarppadUnlockRequirements,
};
use crate::shuffle::{get_shuffled_warppads, shuffled_links_ok};
use crate::world::{
    get_vanilla_gameworld, spec_vanilla_gameworld, BossCharacter, GameWorld, Hubs,
};

verus! {

/// The result of one generation: the final world, the final reward of every
/// race flattened out of it, and the flat settings table the serialized
/// format carries.
#[derive(Debug)]
pub struct GameSetup {
    pub game_world: GameWorld,
    pub race_rewards: Vec<(LevelID, RaceType, RaceReward)>,
    pub settings: Vec<(SettingID, SettingValue)>,
}

/// The flat settings table of one generation. The two seed-hash entries
/// carry the halves of the seed while the adventure is shuffled, and zero
/// otherwise.
pub open spec fn spec_settings_table(seed: u32, s: SeedSettings) -> Seq<
    (SettingID, SettingValue),
> {
    seq![
        (
            SettingID::RelicDifficulty,
            SettingValue::RelicDifficulty(s.general.rr_required_minimum_time),
        ),
        (SettingID::RelicNeedsPerfect, SettingValue::Boolean(s.general.rr_require_perfects)),
        (
            SettingID::BossGarageRequirements,
            SettingValue::BossGarageRequirements(s.randomization.bossgarage_unlock_requirements),
        ),
        (SettingID::QolSkipMaskhints, SettingValue::Boolean(s.qol.skip_mask_hints)),
        (SettingID::QolSkipPodium, SettingValue::Boolean(s.qol.autoskip_podium_cutscenes)),
        (SettingID::QolSkipMaskcongrats, SettingValue::Boolean(s.qol.skip_mask_congrats)),
        (
            SettingID::OxideRequiredRelics,
            SettingValue::OxideRequiredRelics(s.general.oxide_final_challenge_unlock),
        ),
        (
            SettingID::SeedHash1,
            SettingValue::SeedHashPart(
                if s.randomization.shuffle_adventure {
                    (seed >> 16) as u16
                } else {
                    0
                },
            ),
        ),
        (
            SettingID::SeedHash2,
            SettingValue::SeedHashPart(
                if s.randomization.shuffle_adventure {
                    (seed & 0xFFFF) as u16
                } else {
                    0
                },
            ),
        ),
    ]
}

/// The vanilla game: the vanilla world, its rewards, and the default
/// settings table.
pub fn get_vanilla_game() -> (r: GameSetup)
    ensures
        r.game_world == spec_vanilla_gameworld(),
        r.race_rewards@ == spec_vanilla_gameworld().spec_race_rewards(),
        r.settings@ == spec_default_settings(),
{
    let game_world = get_vanilla_gameworld();
    let race_rewards = game_world.get_race_rewards();
    let mut settings: Vec<(SettingID, SettingValue)> = Vec::new();
    settings.push(
        (SettingID::RelicDifficulty, SettingValue::RelicDifficulty(RelicTime::SapphireTime)),
    );
    settings.push((SettingID::RelicNeedsPerfect, SettingValue::Boolean(false)));
    settings.push(
        (
            SettingID::BossGarageRequirements,
            SettingValue::BossGarageRequirements(BossGarageRequirements::Original4Tracks),
        ),
    );
    settings.push((SettingID::QolSkipMaskhints, SettingValue::Boolean(true)));
    settings.push((SettingID::QolSkipPodium, SettingValue::Boolean(false)));
    settings.push((SettingID::QolSkipMaskcongrats, SettingValue::Boolean(false)));
    settings.push(
        (
            SettingID::OxideRequiredRelics,
            SettingValue::OxideRequiredRelics(FinalOxideUnlock::SappireRelics18),
        ),
    );
    settings.push((SettingID::SeedHash1, SettingValue::SeedHashPart(0)));
    settings.push((SettingID::SeedHash2, SettingValue::SeedHashPart(0)));
    proof {
        assert(settings@ =~= spec_default_settings());
    }
    GameSetup { game_world, race_rewards, settings }
}

/// The settings table of the vanilla game.
pub open spec fn spec_default_settings() -> Seq<(SettingID, SettingValue)> {
    seq![
        (SettingID::RelicDifficulty, SettingValue::RelicDifficulty(RelicTime::SapphireTime)),
        (SettingID::RelicNeedsPerfect, SettingValue::Boolean(false)),
        (
            SettingID::BossGarageRequirements,
            SettingValue::BossGarageRequirements(BossGarageRequirements::Original4Tracks),
        ),
        (SettingID::QolSkipMaskhints, SettingValue::Boolean(true)),
        (SettingID::QolSkipPodium, SettingValue::Boolean(false)),
        (SettingID::QolSkipMaskcongrats, SettingValue::Boolean(false)),
        (
            SettingID::OxideRequiredRelics,
            SettingValue::OxideRequiredRelics(FinalOxideUnlock::SappireRelics18),
        ),
        (SettingID::SeedHash1, SettingValue::SeedHashPart(0)),
        (SettingID::SeedHash2, SettingValue::SeedHashPart(0)),
    ]
}

/// The unlock condition of each generic hub's garage under a non-vanilla choice:
/// the four tracks its hub's pads currently lead to, or a trophy threshold
/// growing by hub. The final garage keeps its gate.
pub open spec fn spec_modified_garage_unlocks(
    garage_unlock: BossGarageRequirements,
    links: Seq<(LevelID, LevelID)>,
) -> Seq<(BossCharacter, UnlockRequirement)> {
    if garage_unlock == BossGarageRequirements::SameHubTracks {
        seq![
            (
                BossCharacter::RipperRoo,
                UnlockRequirement::LevelList(
                    link_or(links, LevelID::CrashCove),
                    link_or(links, LevelID::RoosTubes),
                    link_or(links, LevelID::MysteryCaves),
                    link_or(links, LevelID::SewerSpeedway),
                ),
            ),
            (
                BossCharacter::PapuPapu,
                UnlockRequirement::LevelList(
                    link_or(links, LevelID::TigerTemple),
                    link_or(links, LevelID::CocoPark),
                    link_or(links, LevelID::PapusPyramid),
                    link_or(links, LevelID::DingoCanyon),
                ),
            ),
            (
                BossCharacter::KomodoJoe,
                UnlockRequirement::LevelList(
                    link_or(links, LevelID::BlizzardBluff),
                    link_or(links, LevelID::DragonMines),
                    link_or(links, LevelID::PolarPass),
                    link_or(links, LevelID::TinyArena),
                ),
            ),
            (
                BossCharacter::Pinstripe,
                UnlockRequirement::LevelList(
                    link_or(links, LevelID::NGinLabs),
                    link_or(links, LevelID::CortexCastle),
                    link_or(links, LevelID::HotAirSkyway),
                    link_or(links, LevelID::OxideStation),
                ),
            ),
        ]
    } else {
        seq![
            (
                BossCharacter::RipperRoo,
                UnlockRequirement::Item(
                    UnlockRequirementItem { item_type: RequiredItem::Trophy, count: 4 },
                ),
            ),
            (
                BossCharacter::PapuPapu,
                UnlockRequirement::Item(
                    UnlockRequirementItem { item_type: RequiredItem::Trophy, count: 8 },
                ),
            ),
            (
                BossCharacter::KomodoJoe,
                UnlockRequirement::Item(
                    UnlockRequirementItem { item_type: RequiredItem::Trophy, count: 12 },
                ),
            ),
            (
                BossCharacter::Pinstripe,
                UnlockRequirement::Item(
                    UnlockRequirementItem { item_type: RequiredItem::Trophy, count: 16 },
                ),
            ),
        ]
    }
}

/// The track the pad of slot `slot` currently leads to, or the slot itself
/// where the link table has no entry; the callers only use it where the
/// entry exists.
pub open spec fn link_or(links: Seq<(LevelID, LevelID)>, slot: LevelID) -> LevelID {
    match lookup_link(links, slot) {
        Some(v) => v,
        None => slot,
    }
}

/// The link table holds an entry for every trophy slot of the four generic
/// hubs: everything the same-hub-tracks choice dereferences.
pub open spec fn hub_slots_linked(links: Seq<(LevelID, LevelID)>) -> bool {
    &&& lookup_link(links, LevelID::CrashCove).is_some()
    &&& lookup_link(links, LevelID::RoosTubes).is_some()
    &&& lookup_link(links, LevelID::MysteryCaves).is_some()
    &&& lookup_link(links, LevelID::SewerSpeedway).is_some()
    &&& lookup_link(links, LevelID::TigerTemple).is_some()
    &&& lookup_link(links, LevelID::CocoPark).is_some()
    &&& lookup_link(links, LevelID::PapusPyramid).is_some()
    &&& lookup_link(links, LevelID::DingoCanyon).is_some()
    &&& lookup_link(links, LevelID::BlizzardBluff).is_some()
    &&& lookup_link(links, LevelID::DragonMines).is_some()
    &&& lookup_link(links, LevelID::PolarPass).is_some()
    &&& lookup_link(links, LevelID::TinyArena).is_some()
    &&& lookup_link(links, LevelID::NGinLabs).is_some()
    &&& lookup_link(links, LevelID::CortexCastle).is_some()
    &&& lookup_link(links, LevelID::HotAirSkyway).is_some()
    &&& lookup_link(links, LevelID::OxideStation).is_some()
}

/// Builds the non-vanilla boss-garage gates; see
/// [`spec_modified_garage_unlocks`]. Asking for the vanilla choice here is a
/// programmer error; the trophy choice always succeeds; the same-hub-tracks
/// choice succeeds exactly when the link table holds every slot it reads.
pub fn get_modified_garage_unlocks(
    garage_unlock: BossGarageRequirements,
    level_links: &Vec<(LevelID, LevelID)>,
) -> (r: Result<Vec<(BossCharacter, UnlockRequirement)>, GenerationError>)
    ensures
        (r matches Ok(v) ==> v@ == spec_modified_garage_unlocks(garage_unlock, level_links@)),
        garage_unlock == BossGarageRequirements::Original4Tracks ==> r == Err::<
            Vec<(BossCharacter, UnlockRequirement)>,
            GenerationError,
        >(GenerationError::InternalInconsistency),
        garage_unlock == BossGarageRequirements::Trophies ==> r is Ok,
        garage_unlock == BossGarageRequirements::SameHubTracks ==> (r is Ok <==> hub_slots_linked(
            level_links@,
        )),
{
    let mut r: Vec<(BossCharacter, UnlockRequirement)> = Vec::new();
    match garage_unlock {
        BossGarageRequirements::Original4Tracks => {
            return Err(GenerationError::InternalInconsistency);
        },
        BossGarageRequirements::SameHubTracks => {
            let a1 = match find_link(level_links, LevelID::CrashCove) {
                Some(v) => v,
                None => {
                    return Err(GenerationError::MalformedWorld);
                },
            };
            let a2 = match find_link(level_links, LevelID::RoosTubes) {
                Some(v) => v,
                None => {
                    return Err(GenerationError::MalformedWorld);
                },
            };
            let a3 = match find_link(level_links, LevelID::MysteryCaves) {
                Some(v) => v,
                None => {
                    return Err(GenerationError::MalformedWorld);
                },
            };
            let a4 = match find_link(level_links, LevelID::SewerSpeedway) {
                Some(v) => v,
                None => {
                    return Err(GenerationError::MalformedWorld);
                },
            };
            r.push((BossCharacter::RipperRoo, UnlockRequirement::LevelList(a1, a2, a3, a4)));
            let b1 = match find_link(level_links, LevelID::TigerTemple) {
                Some(v) => v,
                None => {
                    return Err(GenerationError::MalformedWorld);
                },
            };
            let b2 = match find_link(level_links, LevelID::CocoPark) {
                Some(v) => v,
                None => {
                    return Err(GenerationError::MalformedWorld);
                },
            };
            let b3 = match find_link(level_links, LevelID::PapusPyramid) {
                Some(v) => v,
                None => {
                    return Err(GenerationError::MalformedWorld);
                },
            };
            let b4 = match find_link(level_links, LevelID::DingoCanyon) {
                Some(v) => v,
                None => {
                    return Err(GenerationError::MalformedWorld);
                },
            };
            r.push((BossCharacter::PapuPapu, UnlockRequirement::LevelList(b1, b2, b3, b4)));
            let c1 = match find_link(level_links, LevelID::BlizzardBluff) {
                Some(v) => v,
                None => {
                    return Err(GenerationError::MalformedWorld);
                },
            };
            let c2 = match find_link(level_links, LevelID::DragonMines) {
                Some(v) => v,
                None => {
                    return Err(GenerationError::MalformedWorld);
                },
            };
            let c3 = match find_link(level_links, LevelID::PolarPass) {
                Some(v) => v,
                None => {
                    return Err(GenerationError::MalformedWorld);
                },
            };
            let c4 = match find_link(level_links, LevelID::TinyArena) {
                Some(v) => v,
                None => {
                    return Err(GenerationError::MalformedWorld);
                },
            };
            r.push((BossCharacter::KomodoJoe, UnlockRequirement::LevelList(c1, c2, c3, c4)));
            let d1 = match find_link(level_links, LevelID::NGinLabs) {
                Some(v) => v,
                None => {
                    return Err(GenerationError::MalformedWorld);
                },
            };
            let d2 = match find_link(level_links, LevelID::CortexCastle) {
                Some(v) => v,
                None => {
                    return Err(GenerationError::MalformedWorld);
                },
            };
            let d3 = match find_link(level_links, LevelID::HotAirSkyway) {
                Some(v) => v,
                None => {
                    return Err(GenerationError::MalformedWorld);
                },
            };
            let d4 = match find_link(level_links, LevelID::OxideStation) {
                Some(v) => v,
                None => {
                    return Err(GenerationError::MalformedWorld);
                },
            };
            r.push((BossCharacter::Pinstripe, UnlockRequirement::LevelList(d1, d2, d3, d4)));
        },
        BossGarageRequirements::Trophies => {
            r.push(
                (
                    BossCharacter::RipperRoo,
                    UnlockRequirement::Item(
                        UnlockRequirementItem { item_type: RequiredItem::Trophy, count: 4 },
                    ),
                ),
            );
            r.push(
                (
                    BossCharacter::PapuPapu,
                    UnlockRequirement::Item(
                        UnlockRequirementItem { item_type: RequiredItem::Trophy, count: 8 },
                    ),
                ),
            );
            r.push(
                (
                    BossCharacter::KomodoJoe,
                    UnlockRequirement::Item(
                        UnlockRequirementItem { item_type: RequiredItem::Trophy, count: 12 },
                    ),
                ),
            );
            r.push(
                (
                    BossCharacter::Pinstripe,
                    UnlockRequirement::Item(
                        UnlockRequirementItem { item_type: RequiredItem::Trophy, count: 16 },
                    ),
                ),
            );
        },
    }
    proof {
        assert(r@ =~= spec_modified_garage_unlocks(garage_unlock, level_links@));
    }
    Ok(r)
}

/// Whether every entry of an unlock overlay carries a requirement.
fn all_unlocks_present(
    unlocks: &Vec<((LevelID, UnlockStage), Option<UnlockRequirementItem>)>,
) -> (r: bool)
    ensures
        r == forall|i: int| 0 <= i < unlocks@.len() ==> (#[trigger] unlocks@[i]).1.is_some(),
{
    let mut i: usize = 0;
    while i < unlocks.len()
        invariant
            0 <= i <= unlocks@.len(),
            forall|j: int| 0 <= j < i ==> (#[trigger] unlocks@[j]).1.is_some(),
        decreases unlocks@.len() - i,
    {
        if unlocks[i].1.is_none() {
            return false;
        }
        i = i + 1;
    }
    true
}

/// First match of a location in a location-keyed placement.
pub open spec fn spec_reward_lookup(
    placement: Seq<(ItemLocation, RaceReward)>,
    loc: ItemLocation,
) -> Option<RaceReward>
    decreases placement.len(),
{
    if placement.len() == 0 {
        None
    } else if placement[0].0 == loc {
        Some(placement[0].1)
    } else {
        spec_reward_lookup(placement.drop_first(), loc)
    }
}

/// The reward column of a key list under a location-keyed placement.
pub open spec fn rewards_column(
    keys: Seq<ItemLocation>,
    placement: Seq<(ItemLocation, RaceReward)>,
) -> Seq<Option<RaceReward>> {
    Seq::new(keys.len(), |i: int| spec_reward_lookup(placement, keys[i]))
}

/// A world carrying a reward table is completable from an empty inventory:
/// every slot of its own location graph, holding its own reward, is
/// reachable under the placement engine's pickup discipline.
pub open spec fn world_rewards_reachable(
    world: GameWorld,
    rewards: Seq<(LevelID, RaceType, RaceReward)>,
) -> bool {
    let ll = crate::locations::spec_location_list(
        world.spec_links(),
        GameWorld::unlocks_of(world.spec_pads()),
        world.spec_garage_requirements(),
        world.spec_hub_requirements(),
    );
    crate::placement::all_reachable(
        ll.map_values(|e: (ItemLocation, Seq<UnlockRequirement>)| e.0),
        ll.map_values(|e: (ItemLocation, Seq<UnlockRequirement>)| e.1),
        rewards_column(
            ll.map_values(|e: (ItemLocation, Seq<UnlockRequirement>)| e.0),
            crate::requirements::spec_rewards_as_locations(rewards),
        ),
    )
}

/// The generated game is completable; see [`world_rewards_reachable`].
pub open spec fn gated_world_reachable(g: GameSetup) -> bool {
    world_rewards_reachable(g.game_world, g.race_rewards@)
}

/// Certifies that the world, carrying the given reward table, is completable
/// from an empty inventory, by replaying the placement engine's reachable
/// closure over the world's own location graph.
fn certify_completable(
    world: &GameWorld,
    race_rewards: &Vec<(LevelID, RaceType, RaceReward)>,
) -> (r: Result<(), GenerationError>)
    ensures
        r is Ok ==> world_rewards_reachable(*world, race_rewards@),
{
    let links2 = world.get_warppad_links();
    let unlocks2 = world.get_warppad_unlocks();
    let garages2 = world.get_garage_requirements();
    let hubs2 = world.get_hub_requirements();
    let gated_list = match crate::locations::get_location_list(
        &links2,
        &unlocks2,
        &garages2,
        &hubs2,
    ) {
        Ok(l) => l,
        Err(e) => {
            return Err(e);
        },
    };
    let placement_flat = crate::requirements::rewards_as_locations(race_rewards);
    let mut ckeys: Vec<ItemLocation> = Vec::new();
    let mut creqs: Vec<Vec<UnlockRequirement>> = Vec::new();
    let mut crewards: Vec<Option<RaceReward>> = Vec::new();
    let mut ci: usize = 0;
    while ci < gated_list.len()
        invariant
            0 <= ci <= gated_list@.len(),
            ckeys@.len() == ci,
            creqs@.len() == ci,
            crewards@.len() == ci,
            placement_flat@ == crate::requirements::spec_rewards_as_locations(race_rewards@),
            forall|j: int| 0 <= j < ci ==> (#[trigger] ckeys@[j]) == gated_list@[j].0,
            forall|j: int| 0 <= j < ci ==> (#[trigger] creqs@[j])@ == gated_list@[j].1@,
            forall|j: int|
                0 <= j < ci ==> (#[trigger] crewards@[j]) == spec_reward_lookup(
                    placement_flat@,
                    gated_list@[j].0,
                ),
        decreases gated_list@.len() - ci,
    {
        let entry = &gated_list[ci];
        ckeys.push(entry.0);
        creqs.push(crate::locations::copy_reqs(&entry.1));
        crewards.push(find_reward(&placement_flat, entry.0));
        ci = ci + 1;
    }
    let res = crate::placement::reach_closure(
        &ckeys,
        &creqs,
        &crewards,
        crate::inventory::PlayerInventory::new(),
    );
    let mut cv: usize = 0;
    while cv < ckeys.len()
        invariant
            0 <= cv <= ckeys@.len(),
            res.visited@.len() == ckeys@.len(),
            forall|j: int| 0 <= j < cv ==> res.visited@[j],
        decreases ckeys@.len() - cv,
    {
        if !res.visited[cv] {
            return Err(GenerationError::RequirementGenerationFailed);
        }
        cv = cv + 1;
    }
    proof {
        assert forall|j: usize| j < ckeys@.len() implies #[trigger] res.order@.contains(j) by {
            assert(res.visited@[j as int]);
        }
        assert(crate::placement::all_reachable(
            ckeys@,
            crate::placement::reqs_model(creqs@),
            crewards@,
        ));
        let ll = crate::locations::spec_location_list(links2@, unlocks2@, garages2@, hubs2@);
        assert(ckeys@ =~= ll.map_values(|e: (ItemLocation, Seq<UnlockRequirement>)| e.0));
        assert(crate::placement::reqs_model(creqs@) =~~= ll.map_values(
            |e: (ItemLocation, Seq<UnlockRequirement>)| e.1,
        ));
        assert(crewards@ =~= rewards_column(
            ll.map_values(|e: (ItemLocation, Seq<UnlockRequirement>)| e.0),
            crate::requirements::spec_rewards_as_locations(race_rewards@),
        ));
    }
    Ok(())
}

/// Executable form of [`spec_reward_lookup`].
fn find_reward(placement: &Vec<(ItemLocation, RaceReward)>, loc: ItemLocation) -> (r: Option<
    RaceReward,
>)
    ensures
        r == spec_reward_lookup(placement@, loc),
{
    proof {
        assert(placement@.skip(0) =~= placement@);
    }
    let mut i: usize = 0;
    while i < placement.len()
        invariant
            0 <= i <= placement@.len(),
            spec_reward_lookup(placement@, loc) == spec_reward_lookup(
                placement@.skip(i as int),
                loc,
            ),
        decreases placement@.len() - i,
    {
        proof {
            assert(placement@.skip(i as int).drop_first() =~= placement@.skip(i + 1));
            assert(placement@.skip(i as int)[0] == placement@[i as int]);
        }
        let (k, v) = placement[i];
        if k == loc {
            return Some(v);
        }
        i = i + 1;
    }
    proof {
        assert(placement@.skip(placement@.len() as int) =~= Seq::<
            (ItemLocation, RaceReward),
        >::empty());
    }
    None
}

/// The operator choice that keeps every cost and reward vanilla and at most
/// shuffles warp-pad links outside the gem-cup row: the one randomization
/// path whose success depends on no search.
pub open spec fn vanilla_costs_scenario(s: SeedSettings) -> bool {
    &&& s.randomization.shuffle_adventure
    &&& s.randomization.warppad_unlock_requirements == WarppadUnlockRequirements::Vanilla
    &&& s.randomization.shuffle_race_rewards is None
    &&& s.randomization.bossgarage_unlock_requirements
        == BossGarageRequirements::Original4Tracks
    &&& (match s.randomization.warppad_shuffle {
        None => true,
        Some(ws) => !ws.include_gem_cups,
    })
}

/// What [`vanilla_costs_scenario`] pins the generated game to: the vanilla
/// world under some valid link shuffle, re-dressed with the vanilla unlock
/// overlay, and carrying its own reward table.
pub open spec fn vanilla_costs_world_ok(g: GameSetup, warppad_shuffle: Option<WarppadShuffle>) -> bool {
    let base = spec_vanilla_gameworld();
    let overlay = GameWorld::unlocks_of(base.spec_pads());
    &&& (match warppad_shuffle {
        None => g.game_world == GameWorld::apply_unlocks(base, overlay, overlay),
        Some(ws) => exists|nl: Seq<(LevelID, LevelID)>|
            #[trigger] shuffled_links_ok(
                nl,
                base.spec_links(),
                ws.include_battle_arenas,
                ws.include_gem_cups,
                true,
            ) && g.game_world == GameWorld::apply_unlocks(
                GameWorld::apply_links(base, nl),
                overlay,
                overlay,
            ),
    })
    &&& g.race_rewards@ == g.game_world.spec_race_rewards()
}

/// Generates one randomized game from a seed and the chosen settings. With
/// the master switch off the vanilla world is returned unchanged; otherwise
/// the warp-pad links are shuffled per category choice, the unlock costs are
/// kept vanilla or invented, the boss gates are rewritten per choice, and
/// the race rewards are either kept or re-placed by the assumed-fill pass.
/// The settings table is a pure function of the seed and the choices.
#[verifier::rlimit(100)]
pub fn get_randomized_game(seed_as_number: u32, chosen_settings: &SeedSettings) -> (r: Result<
    GameSetup,
    GenerationError,
>)
    ensures
        (r matches Ok(g) ==> g.settings@ == spec_settings_table(seed_as_number, *chosen_settings)),
        !chosen_settings.randomization.shuffle_adventure ==> (r matches Ok(g) && g.game_world
            == spec_vanilla_gameworld() && g.race_rewards@
            == spec_vanilla_gameworld().spec_race_rewards()),
        vanilla_costs_scenario(*chosen_settings) ==> (r matches Ok(g)
            && vanilla_costs_world_ok(g, chosen_settings.randomization.warppad_shuffle)),
        (r matches Ok(g) ==> (chosen_settings.randomization.shuffle_adventure && !(
        chosen_settings.randomization.warppad_unlock_requirements
            == WarppadUnlockRequirements::Vanilla)
            && chosen_settings.randomization.shuffle_race_rewards is None
            ==> gated_world_reachable(g))),
{
    let vanilla = get_vanilla_gameworld();
    let mut world = vanilla;
    let mut rng = GameRng::new(seed_as_number);

    if chosen_settings.randomization.shuffle_adventure {
        // Warp-pad links.
        let ghost mut shuffle_witness: Seq<(LevelID, LevelID)> = Seq::empty();
        match chosen_settings.randomization.warppad_shuffle {
            Some(ws) => {
                let links = vanilla.get_warppad_links();
                proof {
                    crate::world::lemma_vanilla_links_identity();
                }
                if links.len() > u32::MAX as usize {
                    return Err(GenerationError::MalformedWorld);
                }
                let new_links = match get_shuffled_warppads(
                    &mut rng,
                    &links,
                    ws.include_battle_arenas,
                    ws.include_gem_cups,
                    chosen_settings.randomization.warppad_unlock_requirements
                        == WarppadUnlockRequirements::Vanilla,
                ) {
                    Ok(nl) => nl,
                    Err(e) => {
                        proof {
                            // Redraw exhaustion needs a gem-cup target in the
                            // category-locked partition; with cups kept out
                            // of the shuffle the vanilla mapping has none, so
                            // the guaranteed scenario never reaches here.
                            if vanilla_costs_scenario(*chosen_settings) {
                                let j = choose|j: int|
                                    0 <= j < links@.len() && crate::shuffle::shuffle_class(
                                        (#[trigger] links@[j]).0,
                                        ws.include_battle_arenas,
                                        ws.include_gem_cups,
                                        true,
                                    ) == 1 && links@[j].1.spec_is_cup();
                                assert(links@[j].0 == links@[j].1);
                                assert(false);
                            }
                        }
                        return Err(e);
                    },
                };
                proof {
                    shuffle_witness = new_links@;
                }
                world.set_warppad_links(new_links);
            },
            None => {},
        }

        // Unlock requirements.
        match chosen_settings.randomization.warppad_unlock_requirements {
            WarppadUnlockRequirements::Vanilla => {
                let vanilla_unlocks = vanilla.get_warppad_unlocks();
                proof {
                    crate::world::lemma_vanilla_unlocks_present();
                }
                if !all_unlocks_present(&vanilla_unlocks) {
                    return Err(GenerationError::MalformedWorld);
                }
                world.set_warppad_unlocks(vanilla_unlocks);
            },
            _ => {
                let links = world.get_warppad_links();
                let unlocks = world.get_warppad_unlocks();
                let garages = world.get_garage_requirements();
                let hubs = world.get_hub_requirements();
                let invented = match get_random_warppad_unlocks(
                    &mut rng,
                    &chosen_settings.randomization.warppad_unlock_requirements,
                    &chosen_settings.randomization.shuffle_race_rewards,
                    &links,
                    &unlocks,
                    &garages,
                    &hubs,
                ) {
                    Ok(u) => u,
                    Err(e) => {
                        return Err(e);
                    },
                };
                if !all_unlocks_present(&invented) {
                    return Err(GenerationError::InternalInconsistency);
                }
                world.set_warppad_unlocks(invented);
            },
        }

        // Boss-garage gates; the vanilla choice is already in place.
        if chosen_settings.randomization.bossgarage_unlock_requirements
            != BossGarageRequirements::Original4Tracks {
            let links = world.get_warppad_links();
            let new_garages = match get_modified_garage_unlocks(
                chosen_settings.randomization.bossgarage_unlock_requirements,
                &links,
            ) {
                Ok(g) => g,
                Err(e) => {
                    return Err(e);
                },
            };
            world.set_garage_unlocks(new_garages);
        }

        // Race rewards.
        let race_rewards: Vec<(LevelID, RaceType, RaceReward)> = match chosen_settings
            .randomization
            .shuffle_race_rewards {
            Some(rs) => {
                let links = world.get_warppad_links();
                let unlocks = world.get_warppad_unlocks();
                let garages = world.get_garage_requirements();
                let hubs = world.get_hub_requirements();
                let placement = match get_shuffled_rewards(
                    &mut rng,
                    &rs,
                    &links,
                    &unlocks,
                    &garages,
                    &hubs,
                ) {
                    Ok(p) => p,
                    Err(e) => {
                        return Err(e);
                    },
                };
                let mut flat: Vec<(LevelID, RaceType, RaceReward)> = Vec::new();
                let mut i: usize = 0;
                while i < placement.len()
                    decreases placement@.len() - i,
                {
                    let (loc, reward) = placement[i];
                    flat.push((loc.levelid, loc.racetype, reward));
                    i = i + 1;
                }
                flat
            },
            None => world.get_race_rewards(),
        };

        // Under invented gating with the rewards kept, certify that the
        // freshly gated world stays completable from an empty inventory,
        // under the same pickup discipline the placement engine certifies.
        if !(chosen_settings.randomization.warppad_unlock_requirements
            == WarppadUnlockRequirements::Vanilla)
            && chosen_settings.randomization.shuffle_race_rewards.is_none() {
            match certify_completable(&world, &race_rewards) {
                Ok(()) => {},
                Err(e) => {
                    return Err(e);
                },
            }
        }

        let settings = build_settings_table(seed_as_number, chosen_settings);
        let g = GameSetup { game_world: world, race_rewards, settings };
        proof {
            if vanilla_costs_scenario(*chosen_settings) {
                let base = spec_vanilla_gameworld();
                let overlay = GameWorld::unlocks_of(base.spec_pads());
                match chosen_settings.randomization.warppad_shuffle {
                    Some(ws) => {
                        assert(g.game_world == GameWorld::apply_unlocks(
                            GameWorld::apply_links(base, shuffle_witness),
                            overlay,
                            overlay,
                        ));
                        assert(shuffled_links_ok(
                            shuffle_witness,
                            base.spec_links(),
                            ws.include_battle_arenas,
                            ws.include_gem_cups,
                            true,
                        ));
                    },
                    None => {
                        assert(g.game_world == GameWorld::apply_unlocks(base, overlay, overlay));
                    },
                }
                assert(vanilla_costs_world_ok(g, chosen_settings.randomization.warppad_shuffle));
            }
            if !(chosen_settings.randomization.warppad_unlock_requirements
                == WarppadUnlockRequirements::Vanilla)
                && chosen_settings.randomization.shuffle_race_rewards is None {
                assert(gated_world_reachable(g));
            }
        }
        Ok(g)
    } else {
        let race_rewards = world.get_race_rewards();
        let settings = build_settings_table(seed_as_number, chosen_settings);
        Ok(GameSetup { game_world: world, race_rewards, settings })
    }
}

/// Builds the flat settings table; see [`spec_settings_table`].
fn build_settings_table(seed: u32, s: &SeedSettings) -> (r: Vec<(SettingID, SettingValue)>)
    ensures
        r@ == spec_settings_table(seed, *s),
{
    let h1: u16 = if s.randomization.shuffle_adventure {
        (seed >> 16) as u16
    } else {
        0
    };
    let h2: u16 = if s.randomization.shuffle_adventure {
        (seed & 0xFFFF) as u16
    } else {
        0
    };
    let mut r: Vec<(SettingID, SettingValue)> = Vec::new();
    r.push(
        (
            SettingID::RelicDifficulty,
            SettingValue::RelicDifficulty(s.general.rr_required_minimum_time),
        ),
    );
    r.push((SettingID::RelicNeedsPerfect, SettingValue::Boolean(s.general.rr_require_perfects)));
    r.push(
        (
            SettingID::BossGarageRequirements,
            SettingValue::BossGarageRequirements(s.randomization.bossgarage_unlock_requirements),
        ),
    );
    r.push((SettingID::QolSkipMaskhints, SettingValue::Boolean(s.qol.skip_mask_hints)));
    r.push((SettingID::QolSkipPodium, SettingValue::Boolean(s.qol.autoskip_podium_cutscenes)));
    r.push((SettingID::QolSkipMaskcongrats, SettingValue::Boolean(s.qol.skip_mask_congrats)));
    r.push(
        (
            SettingID::OxideRequiredRelics,
            SettingValue::OxideRequiredRelics(s.general.oxide_final_challenge_unlock),
        ),
    );
    r.push((SettingID::SeedHash1, SettingValue::SeedHashPart(h1)));
    r.push((SettingID::SeedHash2, SettingValue::SeedHashPart(h2)));
    proof {
        assert(r@ =~= spec_settings_table(seed, *s));
    }
    r
}

} // verus!
