//! The library-wide laws, stated as proof functions over the spec functions
//! the executable contracts use.

use vstd::prelude::*;

use crate::data::{ItemLocation, LevelID, RaceReward, RaceType, UnlockRequirement};
use crate::inventory::InvModel;
use crate::placement::{
    gem_of_cup, placement_ok, prefilled_at, spec_prefill_list,
};
use crate::settings::{RewardShuffle, SeedSettings};
use crate::randomize::spec_settings_table;

verus! {

/// Collecting any reward never pushes an inventory past its caps: the item
/// counters of a well-formed inventory stay within 16 trophies, 4 tokens per
/// color, 18 relics per tier and 4 keys, whatever is collected.
pub proof fn lemma_caps_preserved(inv: InvModel, item: RaceReward)
    requires
        inv.wf(),
    ensures
        inv.add_item(item).wf(),
{
}

/// Beating a track never touches the item counters, so it too keeps an
/// inventory well-formed.
pub proof fn lemma_caps_preserved_by_tracks(inv: InvModel, track: LevelID)
    requires
        inv.wf(),
    ensures
        inv.add_track(track).wf(),
{
}

/// The vanilla slot column of a link mapping.
pub open spec fn slots_of(links: Seq<(LevelID, LevelID)>) -> Seq<LevelID> {
    links.map_values(|e: (LevelID, LevelID)| e.0)
}

/// The target track column of a link mapping.
pub open spec fn targets_of(links: Seq<(LevelID, LevelID)>) -> Seq<LevelID> {
    links.map_values(|e: (LevelID, LevelID)| e.1)
}

/// The warp-pad shuffle is a bijection over the location set: a shuffle
/// keeps every slot in place and permutes the targets, so when the input
/// maps its slot set onto itself (as the vanilla mapping does), every slot
/// occurs exactly as often as a target as it does as a slot; with distinct
/// slots, each location is hit by exactly one pad.
pub proof fn lemma_warppad_shuffle_bijection(
    original: Seq<(LevelID, LevelID)>,
    shuffled: Seq<(LevelID, LevelID)>,
)
    requires
        shuffled.len() == original.len(),
        forall|i: int| 0 <= i < shuffled.len() ==> (#[trigger] shuffled[i]).0 == original[i].0,
        targets_of(shuffled).to_multiset() == targets_of(original).to_multiset(),
        targets_of(original).to_multiset() == slots_of(original).to_multiset(),
    ensures
        forall|l: LevelID|
            #[trigger] targets_of(shuffled).to_multiset().count(l) == slots_of(
                shuffled,
            ).to_multiset().count(l),
        slots_of(original).no_duplicates() ==> forall|l: LevelID|
            #[trigger] targets_of(shuffled).to_multiset().count(l) == (if slots_of(
                shuffled,
            ).contains(l) {
                1int
            } else {
                0
            }),
{
    let okeys = slots_of(original);
    let skeys = slots_of(shuffled);
    assert(skeys =~= okeys);
    if okeys.no_duplicates() {
        okeys.lemma_multiset_has_no_duplicates();
        assert forall|l: LevelID|
            #[trigger] targets_of(shuffled).to_multiset().count(l) == (if skeys.contains(l) {
                1int
            } else {
                0
            }) by {
            vstd::seq_lib::to_multiset_contains(okeys, l);
            if okeys.contains(l) {
                assert(okeys.to_multiset().count(l) == 1);
            } else {
                assert(okeys.to_multiset().count(l) == 0);
            }
        }
    }
}

/// Pre-filling is idempotent in the gems: whenever the operator keeps gems
/// out of the pool, every finished placement carries each gem at its own
/// vanilla gem-cup location, for every seed.
pub proof fn lemma_gems_stay_at_vanilla_cups(
    keys: Seq<ItemLocation>,
    reqs: Seq<Seq<UnlockRequirement>>,
    rewards: Seq<Option<RaceReward>>,
    pool: Seq<RaceReward>,
    rs: RewardShuffle,
)
    requires
        placement_ok(keys, reqs, rewards, pool, rs),
        !rs.include_gems,
    ensures
        forall|l: LevelID|
            l.spec_is_cup() ==> prefilled_at(
                keys,
                rewards,
                ItemLocation { levelid: l, racetype: RaceType::GemCup },
                gem_of_cup(l),
            ),
{
    let pl = spec_prefill_list(rs);
    let base: int = if !rs.include_platinum_relics {
        19
    } else {
        1
    };
    assert(pl[base] == (
        ItemLocation { levelid: LevelID::CupRed, racetype: RaceType::GemCup },
        RaceReward::RedGem,
    ));
    assert(pl[base + 1] == (
        ItemLocation { levelid: LevelID::CupGreen, racetype: RaceType::GemCup },
        RaceReward::GreenGem,
    ));
    assert(pl[base + 2] == (
        ItemLocation { levelid: LevelID::CupBlue, racetype: RaceType::GemCup },
        RaceReward::BlueGem,
    ));
    assert(pl[base + 3] == (
        ItemLocation { levelid: LevelID::CupYellow, racetype: RaceType::GemCup },
        RaceReward::YellowGem,
    ));
    assert(pl[base + 4] == (
        ItemLocation { levelid: LevelID::CupPurple, racetype: RaceType::GemCup },
        RaceReward::PurpleGem,
    ));
    assert forall|l: LevelID| l.spec_is_cup() implies prefilled_at(
        keys,
        rewards,
        ItemLocation { levelid: l, racetype: RaceType::GemCup },
        gem_of_cup(l),
    ) by {
        if l == LevelID::CupRed {
            assert(prefilled_at(keys, rewards, pl[base].0, pl[base].1));
        } else if l == LevelID::CupGreen {
            assert(prefilled_at(keys, rewards, pl[base + 1].0, pl[base + 1].1));
        } else if l == LevelID::CupBlue {
            assert(prefilled_at(keys, rewards, pl[base + 2].0, pl[base + 2].1));
        } else if l == LevelID::CupYellow {
            assert(prefilled_at(keys, rewards, pl[base + 3].0, pl[base + 3].1));
        } else {
            assert(prefilled_at(keys, rewards, pl[base + 4].0, pl[base + 4].1));
        }
    }
}

/// The terminal sentinel is pinned: every finished placement carries the
/// final reward at the final boss race, regardless of seed and settings.
pub proof fn lemma_terminal_reward_fixed(
    keys: Seq<ItemLocation>,
    reqs: Seq<Seq<UnlockRequirement>>,
    rewards: Seq<Option<RaceReward>>,
    pool: Seq<RaceReward>,
    rs: RewardShuffle,
)
    requires
        placement_ok(keys, reqs, rewards, pool, rs),
    ensures
        prefilled_at(
            keys,
            rewards,
            ItemLocation { levelid: LevelID::OxideStation, racetype: RaceType::BossRace },
            RaceReward::BeatTheGame,
        ),
{
    let pl = spec_prefill_list(rs);
    assert(pl[0] == (
        ItemLocation { levelid: LevelID::OxideStation, racetype: RaceType::BossRace },
        RaceReward::BeatTheGame,
    ));
    assert(prefilled_at(keys, rewards, pl[0].0, pl[0].1));
}

/// The settings table is deterministic: two generations given the same seed
/// and the same settings carry identical settings output.
pub proof fn lemma_settings_deterministic(
    seed: u32,
    s: SeedSettings,
    t1: Seq<(crate::data::SettingID, crate::settings::SettingValue)>,
    t2: Seq<(crate::data::SettingID, crate::settings::SettingValue)>,
)
    requires
        t1 == spec_settings_table(seed, s),
        t2 == spec_settings_table(seed, s),
    ensures
        t1 == t2,
{
}

} // verus!
