//! The assumed-fill placement engine: scatters a shuffled item pool over the
//! location graph so that every location stays reachable, by always assuming
//! the rest of the pool is in hand while choosing a slot for one item, and
//! certifying the finished placement by a reachability replay from an empty
//! inventory.

use vstd::prelude::*;
use vstd::seq_lib::*;
use vstd::multiset::Multiset;

use crate::data::{
    GenerationError, ItemLocation, LevelID, PlacementError, RaceReward, RaceType,
    UnlockRequirement, UnlockRequirementItem, UnlockStage,
};
use crate::inventory::{InvModel, PlayerInventory};
use crate::locations::{get_location_list, graph_inputs_ok, spec_location_list};
use crate::prng::GameRng;
use crate::settings::RewardShuffle;
use crate::world::{BossCharacter, Hubs};

verus! {

/// The mathematical view of a requirement-list column.
pub open spec fn reqs_model(s: Seq<Vec<UnlockRequirement>>) -> Seq<Seq<UnlockRequirement>> {
    s.map_values(|v: Vec<UnlockRequirement>| v@)
}

/// The inventory after beating the race of one slot: its placed reward is
/// collected, and a trophy-race slot marks its track beaten.
pub open spec fn visit_inv(
    inv: InvModel,
    key: ItemLocation,
    reward: Option<RaceReward>,
) -> InvModel {
    let inv1 = match reward {
        Some(x) => inv.add_item(x),
        None => inv,
    };
    if key.racetype == RaceType::TrophyRace {
        inv1.add_track(key.levelid)
    } else {
        inv1
    }
}

/// The inventory accumulated by visiting the slots of `order` in order,
/// starting from `start`.
pub open spec fn inv_after(
    start: InvModel,
    keys: Seq<ItemLocation>,
    rewards: Seq<Option<RaceReward>>,
    order: Seq<usize>,
) -> InvModel
    decreases order.len(),
{
    if order.len() == 0 {
        start
    } else {
        let prev = inv_after(start, keys, rewards, order.drop_last());
        let idx = order.last() as int;
        if 0 <= idx < keys.len() && idx < rewards.len() {
            visit_inv(prev, keys[idx], rewards[idx])
        } else {
            prev
        }
    }
}

/// A pickup order is a reachability certificate when every slot it visits
/// passes its requirements under the inventory accumulated from the slots
/// visited before it.
pub open spec fn valid_pickup_cert(
    start: InvModel,
    keys: Seq<ItemLocation>,
    reqs: Seq<Seq<UnlockRequirement>>,
    rewards: Seq<Option<RaceReward>>,
    order: Seq<usize>,
) -> bool {
    forall|k: int|
        0 <= k < order.len() ==> {
            &&& (#[trigger] order[k]) < keys.len()
            &&& (order[k] as int) < reqs.len()
            &&& inv_after(start, keys, rewards, order.take(k)).passes_all(
                reqs[order[k] as int],
            )
        }
}

/// Every slot of the placement is reachable: some pickup order starting from
/// an empty inventory covers all of them, each reachable before its reward
/// is needed to proceed further.
pub open spec fn all_reachable(
    keys: Seq<ItemLocation>,
    reqs: Seq<Seq<UnlockRequirement>>,
    rewards: Seq<Option<RaceReward>>,
) -> bool {
    exists|order: Seq<usize>|
        valid_pickup_cert(InvModel::empty(), keys, reqs, rewards, order) && (forall|j: usize|
            j < keys.len() ==> #[trigger] order.contains(j))
}

/// How many flags of the sequence are set.
pub open spec fn count_true(s: Seq<bool>) -> int
    decreases s.len(),
{
    if s.len() == 0 {
        0
    } else {
        count_true(s.drop_last()) + if s.last() {
            1int
        } else {
            0
        }
    }
}

proof fn lemma_count_true_le(s: Seq<bool>)
    ensures
        0 <= count_true(s) <= s.len(),
    decreases s.len(),
{
    if s.len() > 0 {
        lemma_count_true_le(s.drop_last());
    }
}

proof fn lemma_count_true_update(s: Seq<bool>, i: int)
    requires
        0 <= i < s.len(),
        !s[i],
    ensures
        count_true(s.update(i, true)) == count_true(s) + 1,
    decreases s.len(),
{
    if i == s.len() - 1 {
        assert(s.update(i, true).drop_last() =~= s.drop_last());
    } else {
        assert(s.update(i, true).drop_last() =~= s.drop_last().update(i, true));
        lemma_count_true_update(s.drop_last(), i);
    }
}

/// Appending a newly passing slot keeps a certificate valid.
proof fn lemma_cert_push(
    start: InvModel,
    keys: Seq<ItemLocation>,
    reqs: Seq<Seq<UnlockRequirement>>,
    rewards: Seq<Option<RaceReward>>,
    order: Seq<usize>,
    idx: usize,
)
    requires
        valid_pickup_cert(start, keys, reqs, rewards, order),
        (idx as int) < keys.len(),
        (idx as int) < reqs.len(),
        inv_after(start, keys, rewards, order).passes_all(reqs[idx as int]),
    ensures
        valid_pickup_cert(start, keys, reqs, rewards, order.push(idx)),
{
    let order2 = order.push(idx);
    assert forall|k: int| 0 <= k < order2.len() implies {
        &&& (#[trigger] order2[k]) < keys.len()
        &&& (order2[k] as int) < reqs.len()
        &&& inv_after(start, keys, rewards, order2.take(k)).passes_all(reqs[order2[k] as int])
    } by {
        if k < order.len() {
            assert(order2.take(k) =~= order.take(k));
            assert(order2[k] == order[k]);
        } else {
            assert(order2.take(k) =~= order);
            assert(order2[k] == idx);
        }
    }
}

/// The multiset of a sequence with one element appended.
proof fn lemma_push_ms<A>(s: Seq<A>, a: A)
    ensures
        s.push(a).to_multiset() == s.to_multiset().insert(a),
{
    vstd::seq_lib::to_multiset_build(s, a);
}

/// The multiset of rewards already placed.
pub open spec fn rewards_ms(rewards: Seq<Option<RaceReward>>) -> Multiset<RaceReward>
    decreases rewards.len(),
{
    if rewards.len() == 0 {
        Multiset::empty()
    } else {
        match rewards.last() {
            Some(x) => rewards_ms(rewards.drop_last()).insert(x),
            None => rewards_ms(rewards.drop_last()),
        }
    }
}

/// Placing a reward into an empty slot adds exactly that reward.
proof fn lemma_rewards_ms_update(rewards: Seq<Option<RaceReward>>, i: int, x: RaceReward)
    requires
        0 <= i < rewards.len(),
        rewards[i] is None,
    ensures
        rewards_ms(rewards.update(i, Some(x))) == rewards_ms(rewards).insert(x),
    decreases rewards.len(),
{
    broadcast use vstd::multiset::group_multiset_axioms;

    if i == rewards.len() - 1 {
        assert(rewards.update(i, Some(x)).drop_last() =~= rewards.drop_last());
        assert(rewards.update(i, Some(x)).last() == Some(x));
    } else {
        assert(rewards.update(i, Some(x)).drop_last() =~= rewards.drop_last().update(i, Some(x)));
        lemma_rewards_ms_update(rewards.drop_last(), i, x);
        match rewards.last() {
            Some(y) => {
                assert(rewards_ms(rewards.update(i, Some(x))) == rewards_ms(
                    rewards.drop_last(),
                ).insert(x).insert(y));
                assert(rewards_ms(rewards.drop_last()).insert(x).insert(y) =~= rewards_ms(
                    rewards.drop_last(),
                ).insert(y).insert(x));
            },
            None => {},
        }
    }
}

/// The first index carrying the wanted key, or the length when absent.
pub open spec fn first_key_index(keys: Seq<ItemLocation>, loc: ItemLocation) -> int
    decreases keys.len(),
{
    if keys.len() == 0 {
        0
    } else if keys[0] == loc {
        0
    } else {
        1 + first_key_index(keys.drop_first(), loc)
    }
}

/// The placement carries `v` at the first slot keyed `loc`.
pub open spec fn prefilled_at(
    keys: Seq<ItemLocation>,
    rewards: Seq<Option<RaceReward>>,
    loc: ItemLocation,
    v: RaceReward,
) -> bool {
    let ki = first_key_index(keys, loc);
    &&& 0 <= ki < rewards.len()
    &&& rewards[ki] == Some(v)
}

/// Everything the placement promises of a finished run, stated over the
/// slot keys and the final reward column: every slot is filled; every
/// pre-fill pair (the terminal sentinel at the final boss race, and each
/// reward category the operator kept out of the pool at its vanilla slots)
/// sits at its slot; the placed rewards are exactly the pool plus the
/// pre-filled rewards; and every slot is reachable.
pub open spec fn placement_ok(
    keys: Seq<ItemLocation>,
    reqs: Seq<Seq<UnlockRequirement>>,
    rewards: Seq<Option<RaceReward>>,
    pool: Seq<RaceReward>,
    rs: RewardShuffle,
) -> bool {
    &&& rewards.len() == keys.len()
    &&& (forall|i: int| 0 <= i < rewards.len() ==> (#[trigger] rewards[i]).is_some())
    &&& (forall|j: int|
        0 <= j < spec_prefill_list(rs).len() ==> prefilled_at(
            keys,
            rewards,
            (#[trigger] spec_prefill_list(rs)[j]).0,
            spec_prefill_list(rs)[j].1,
        ))
    &&& rewards_ms(rewards) == pool.to_multiset().add(prefill_rewards(rs).to_multiset())
    &&& all_reachable(keys, reqs, rewards)
}

/// The gem a cup's race hands out in the vanilla game.
pub open spec fn gem_of_cup(l: LevelID) -> RaceReward {
    if l == LevelID::CupRed {
        RaceReward::RedGem
    } else if l == LevelID::CupGreen {
        RaceReward::GreenGem
    } else if l == LevelID::CupBlue {
        RaceReward::BlueGem
    } else if l == LevelID::CupYellow {
        RaceReward::YellowGem
    } else {
        RaceReward::PurpleGem
    }
}

/// The result of one reachability sweep: the grown inventory, which slots
/// were reached, the order they were reached in, and the reached slots that
/// still hold no reward.
pub struct ReachResult {
    pub inventory: PlayerInventory,
    pub visited: Vec<bool>,
    pub order: Vec<usize>,
    pub empties: Vec<usize>,
}

/// Computes the reachable closure of the slots under the given starting
/// inventory: scan all slots repeatedly, folding each newly reachable slot's
/// reward (and, for a trophy race, its beaten track) into the inventory,
/// until a full scan finds nothing new. The visit order is returned as a
/// reachability certificate.
pub fn reach_closure(
    keys: &Vec<ItemLocation>,
    reqs: &Vec<Vec<UnlockRequirement>>,
    rewards: &Vec<Option<RaceReward>>,
    inventory: PlayerInventory,
) -> (res: ReachResult)
    requires
        keys@.len() == reqs@.len(),
        keys@.len() == rewards@.len(),
    ensures
        res.visited@.len() == keys@.len(),
        forall|j: usize|
            (j as int) < keys@.len() ==> (res.visited@[j as int] <==> res.order@.contains(j)),
        valid_pickup_cert(inventory@, keys@, reqs_model(reqs@), rewards@, res.order@),
        res.inventory@ == inv_after(inventory@, keys@, rewards@, res.order@),
        forall|k: int|
            0 <= k < res.empties@.len() ==> {
                &&& (#[trigger] res.empties@[k] as int) < keys@.len()
                &&& rewards@[res.empties@[k] as int] is None
            },
        res.empties@.len() <= keys@.len(),
{
    let n = keys.len();
    let mut visited: Vec<bool> = Vec::new();
    let mut fill: usize = 0;
    while fill < n
        invariant
            0 <= fill <= n,
            visited@ =~= Seq::new(fill as nat, |i: int| false),
        decreases n - fill,
    {
        visited.push(false);
        proof {
            assert(visited@ =~= Seq::new((fill + 1) as nat, |i: int| false));
        }
        fill = fill + 1;
    }
    proof {
        assert(count_true(visited@) == 0) by {
            lemma_count_all_false(visited@);
        }
    }
    let mut order: Vec<usize> = Vec::new();
    let mut empties: Vec<usize> = Vec::new();
    let mut inv = inventory;
    let mut visited_count: usize = 0;
    let mut changed = true;
    while changed
        invariant
            keys@.len() == n,
            reqs@.len() == n,
            rewards@.len() == n,
            visited@.len() == n,
            visited_count == count_true(visited@),
            visited_count <= n,
            forall|j: usize| (j as int) < n ==> (visited@[j as int] <==> order@.contains(j)),
            valid_pickup_cert(inventory@, keys@, reqs_model(reqs@), rewards@, order@),
            inv@ == inv_after(inventory@, keys@, rewards@, order@),
            forall|k: int|
                0 <= k < empties@.len() ==> {
                    &&& (#[trigger] empties@[k] as int) < n
                    &&& rewards@[empties@[k] as int] is None
                },
            empties@.len() <= count_true(visited@),
        decreases n - visited_count, (if changed { 1int } else { 0int }),
    {
        changed = false;
        let ghost count_at_entry = visited_count;
        let mut idx: usize = 0;
        while idx < n
            invariant
                keys@.len() == n,
                reqs@.len() == n,
                rewards@.len() == n,
                visited@.len() == n,
                0 <= idx <= n,
                visited_count == count_true(visited@),
                visited_count <= n,
                count_at_entry <= visited_count,
                changed ==> count_at_entry < visited_count,
                forall|j: usize| (j as int) < n ==> (visited@[j as int] <==> order@.contains(j)),
                valid_pickup_cert(inventory@, keys@, reqs_model(reqs@), rewards@, order@),
                inv@ == inv_after(inventory@, keys@, rewards@, order@),
                forall|k: int|
                    0 <= k < empties@.len() ==> {
                        &&& (#[trigger] empties@[k] as int) < n
                        &&& rewards@[empties@[k] as int] is None
                    },
                empties@.len() <= count_true(visited@),
            decreases n - idx,
        {
            if !visited[idx] && inv.does_pass_requirements(&reqs[idx]) {
                let ghost old_order = order@;
                let ghost old_inv = inv@;
                proof {
                    lemma_count_true_update(visited@, idx as int);
                    lemma_cert_push(
                        inventory@,
                        keys@,
                        reqs_model(reqs@),
                        rewards@,
                        order@,
                        idx,
                    );
                }
                visited[idx] = true;
                proof {
                    lemma_count_true_le(visited@);
                }
                visited_count = visited_count + 1;
                let key = keys[idx];
                match rewards[idx] {
                    Some(x) => {
                        inv.add_item(x);
                        changed = true;
                    },
                    None => {
                        empties.push(idx);
                    },
                }
                if key.racetype == RaceType::TrophyRace {
                    inv.add_track(key.levelid);
                    changed = true;
                }
                order.push(idx);
                proof {
                    assert(order@.drop_last() =~= old_order);
                    assert(inv@ == inv_after(inventory@, keys@, rewards@, order@));
                    assert forall|j: usize| (j as int) < n implies (visited@[j as int]
                        <==> order@.contains(j)) by {
                        if j == idx {
                            assert(order@[order@.len() - 1] == idx);
                        } else {
                            assert(order@.contains(j) <==> old_order.contains(j)) by {
                                if old_order.contains(j) {
                                    let w = choose|w: int|
                                        0 <= w < old_order.len() && old_order[w] == j;
                                    assert(order@[w] == j);
                                }
                                if order@.contains(j) {
                                    let w = choose|w: int|
                                        0 <= w < order@.len() && order@[w] == j;
                                    assert(w < old_order.len());
                                    assert(old_order[w] == j);
                                }
                            }
                        }
                    }
                }
            }
            idx = idx + 1;
        }
    }
    ReachResult { inventory: inv, visited, order, empties }
}

proof fn lemma_count_all_false(s: Seq<bool>)
    requires
        forall|i: int| 0 <= i < s.len() ==> !s[i],
    ensures
        count_true(s) == 0,
    decreases s.len(),
{
    if s.len() > 0 {
        lemma_count_all_false(s.drop_last());
    }
}

/// Whether any slot still holds no reward.
fn has_empty(rewards: &Vec<Option<RaceReward>>) -> (r: bool)
    ensures
        r == exists|i: int| 0 <= i < rewards@.len() && rewards@[i] is None,
{
    let mut i: usize = 0;
    while i < rewards.len()
        invariant
            0 <= i <= rewards@.len(),
            forall|j: int| 0 <= j < i ==> rewards@[j] is Some,
        decreases rewards@.len() - i,
    {
        if rewards[i].is_none() {
            return true;
        }
        i = i + 1;
    }
    false
}

/// The first index keyed `loc`, and whether one exists.
fn find_key_index(keys: &Vec<ItemLocation>, loc: ItemLocation) -> (r: usize)
    ensures
        r as int == first_key_index(keys@, loc),
        r <= keys@.len(),
        r < keys@.len() ==> keys@[r as int] == loc,
{
    proof {
        assert(keys@.skip(0) =~= keys@);
    }
    let mut i: usize = 0;
    while i < keys.len()
        invariant
            0 <= i <= keys@.len(),
            first_key_index(keys@, loc) == i + first_key_index(keys@.skip(i as int), loc),
        decreases keys@.len() - i,
    {
        proof {
            assert(keys@.skip(i as int).drop_first() =~= keys@.skip(i + 1));
            assert(keys@.skip(i as int)[0] == keys@[i as int]);
        }
        if keys[i] == loc {
            return i;
        }
        i = i + 1;
    }
    proof {
        assert(keys@.skip(keys@.len() as int) =~= Seq::<ItemLocation>::empty());
    }
    i
}

/// The pre-placed rewards of one generation and the slots that take them:
/// the terminal sentinel at the final boss race, and each reward category
/// the operator kept out of the pool at its vanilla slots.
pub open spec fn spec_prefill_list(rs: RewardShuffle) -> Seq<(ItemLocation, RaceReward)> {
    seq![
        (
            ItemLocation { levelid: LevelID::OxideStation, racetype: RaceType::BossRace },
            RaceReward::BeatTheGame,
        ),
    ] + (if !rs.include_platinum_relics {
        platinum_prefills()
    } else {
        Seq::empty()
    }) + (if !rs.include_gems {
        seq![
            (
                ItemLocation { levelid: LevelID::CupRed, racetype: RaceType::GemCup },
                RaceReward::RedGem,
            ),
            (
                ItemLocation { levelid: LevelID::CupGreen, racetype: RaceType::GemCup },
                RaceReward::GreenGem,
            ),
            (
                ItemLocation { levelid: LevelID::CupBlue, racetype: RaceType::GemCup },
                RaceReward::BlueGem,
            ),
            (
                ItemLocation { levelid: LevelID::CupYellow, racetype: RaceType::GemCup },
                RaceReward::YellowGem,
            ),
            (
                ItemLocation { levelid: LevelID::CupPurple, racetype: RaceType::GemCup },
                RaceReward::PurpleGem,
            ),
        ]
    } else {
        Seq::empty()
    }) + (if !rs.include_keys {
        seq![
            (
                ItemLocation { levelid: LevelID::RoosTubes, racetype: RaceType::BossRace },
                RaceReward::Key,
            ),
            (
                ItemLocation { levelid: LevelID::PapusPyramid, racetype: RaceType::BossRace },
                RaceReward::Key,
            ),
            (
                ItemLocation { levelid: LevelID::DragonMines, racetype: RaceType::BossRace },
                RaceReward::Key,
            ),
            (
                ItemLocation { levelid: LevelID::HotAirSkyway, racetype: RaceType::BossRace },
                RaceReward::Key,
            ),
        ]
    } else {
        Seq::empty()
    })
}

/// The eighteen vanilla platinum-relic slots: the sixteen trophy tracks plus
/// the two relic-only tracks.
pub open spec fn platinum_prefills() -> Seq<(ItemLocation, RaceReward)> {
    seq![
        (
            ItemLocation { levelid: LevelID::CrashCove, racetype: RaceType::RelicRacePlatinum },
            RaceReward::PlatinumRelic,
        ),
        (
            ItemLocation { levelid: LevelID::RoosTubes, racetype: RaceType::RelicRacePlatinum },
            RaceReward::PlatinumRelic,
        ),
        (
            ItemLocation { levelid: LevelID::MysteryCaves, racetype: RaceType::RelicRacePlatinum },
            RaceReward::PlatinumRelic,
        ),
        (
            ItemLocation {
                levelid: LevelID::SewerSpeedway,
                racetype: RaceType::RelicRacePlatinum,
            },
            RaceReward::PlatinumRelic,
        ),
        (
            ItemLocation { levelid: LevelID::TigerTemple, racetype: RaceType::RelicRacePlatinum },
            RaceReward::PlatinumRelic,
        ),
        (
            ItemLocation { levelid: LevelID::CocoPark, racetype: RaceType::RelicRacePlatinum },
            RaceReward::PlatinumRelic,
        ),
        (
            ItemLocation { levelid: LevelID::PapusPyramid, racetype: RaceType::RelicRacePlatinum },
            RaceReward::PlatinumRelic,
        ),
        (
            ItemLocation { levelid: LevelID::DingoCanyon, racetype: RaceType::RelicRacePlatinum },
            RaceReward::PlatinumRelic,
        ),
        (
            ItemLocation {
                levelid: LevelID::BlizzardBluff,
                racetype: RaceType::RelicRacePlatinum,
            },
            RaceReward::PlatinumRelic,
        ),
        (
            ItemLocation { levelid: LevelID::DragonMines, racetype: RaceType::RelicRacePlatinum },
            RaceReward::PlatinumRelic,
        ),
        (
            ItemLocation { levelid: LevelID::PolarPass, racetype: RaceType::RelicRacePlatinum },
            RaceReward::PlatinumRelic,
        ),
        (
            ItemLocation { levelid: LevelID::TinyArena, racetype: RaceType::RelicRacePlatinum },
            RaceReward::PlatinumRelic,
        ),
        (
            ItemLocation { levelid: LevelID::NGinLabs, racetype: RaceType::RelicRacePlatinum },
            RaceReward::PlatinumRelic,
        ),
        (
            ItemLocation { levelid: LevelID::CortexCastle, racetype: RaceType::RelicRacePlatinum },
            RaceReward::PlatinumRelic,
        ),
        (
            ItemLocation { levelid: LevelID::HotAirSkyway, racetype: RaceType::RelicRacePlatinum },
            RaceReward::PlatinumRelic,
        ),
        (
            ItemLocation { levelid: LevelID::OxideStation, racetype: RaceType::RelicRacePlatinum },
            RaceReward::PlatinumRelic,
        ),
        (
            ItemLocation { levelid: LevelID::TurboTrack, racetype: RaceType::RelicRacePlatinum },
            RaceReward::PlatinumRelic,
        ),
        (
            ItemLocation {
                levelid: LevelID::SlideColiseum,
                racetype: RaceType::RelicRacePlatinum,
            },
            RaceReward::PlatinumRelic,
        ),
    ]
}

/// The rewards placed outside the shuffled pool, in pre-fill order.
pub open spec fn prefill_rewards(rs: RewardShuffle) -> Seq<RaceReward> {
    spec_prefill_list(rs).map_values(|e: (ItemLocation, RaceReward)| e.1)
}

/// Builds the pre-fill pairs; see [`spec_prefill_list`].
fn build_prefill_list(rs: &RewardShuffle) -> (r: Vec<(ItemLocation, RaceReward)>)
    ensures
        r@ == spec_prefill_list(*rs),
{
    let mut r: Vec<(ItemLocation, RaceReward)> = Vec::new();
    r.push(
        (
            ItemLocation { levelid: LevelID::OxideStation, racetype: RaceType::BossRace },
            RaceReward::BeatTheGame,
        ),
    );
    if !rs.include_platinum_relics {
        let levels: [LevelID; 18] = [
            LevelID::CrashCove,
            LevelID::RoosTubes,
            LevelID::MysteryCaves,
            LevelID::SewerSpeedway,
            LevelID::TigerTemple,
            LevelID::CocoPark,
            LevelID::PapusPyramid,
            LevelID::DingoCanyon,
            LevelID::BlizzardBluff,
            LevelID::DragonMines,
            LevelID::PolarPass,
            LevelID::TinyArena,
            LevelID::NGinLabs,
            LevelID::CortexCastle,
            LevelID::HotAirSkyway,
            LevelID::OxideStation,
            LevelID::TurboTrack,
            LevelID::SlideColiseum,
        ];
        let mut i: usize = 0;
        while i < 18
            invariant
                0 <= i <= 18,
                r@.len() == 1 + i,
                r@[0] == (
                    ItemLocation { levelid: LevelID::OxideStation, racetype: RaceType::BossRace },
                    RaceReward::BeatTheGame,
                ),
                forall|j: int| 0 <= j < i ==> r@[1 + j] == platinum_prefills()[j],
                levels@ =~= platinum_prefills().map_values(
                    |e: (ItemLocation, RaceReward)| e.0.levelid,
                ),
            decreases 18 - i,
        {
            r.push(
                (
                    ItemLocation { levelid: levels[i], racetype: RaceType::RelicRacePlatinum },
                    RaceReward::PlatinumRelic,
                ),
            );
            i = i + 1;
        }
    }
    if !rs.include_gems {
        r.push(
            (
                ItemLocation { levelid: LevelID::CupRed, racetype: RaceType::GemCup },
                RaceReward::RedGem,
            ),
        );
        r.push(
            (
                ItemLocation { levelid: LevelID::CupGreen, racetype: RaceType::GemCup },
                RaceReward::GreenGem,
            ),
        );
        r.push(
            (
                ItemLocation { levelid: LevelID::CupBlue, racetype: RaceType::GemCup },
                RaceReward::BlueGem,
            ),
        );
        r.push(
            (
                ItemLocation { levelid: LevelID::CupYellow, racetype: RaceType::GemCup },
                RaceReward::YellowGem,
            ),
        );
        r.push(
            (
                ItemLocation { levelid: LevelID::CupPurple, racetype: RaceType::GemCup },
                RaceReward::PurpleGem,
            ),
        );
    }
    if !rs.include_keys {
        r.push(
            (
                ItemLocation { levelid: LevelID::RoosTubes, racetype: RaceType::BossRace },
                RaceReward::Key,
            ),
        );
        r.push(
            (
                ItemLocation { levelid: LevelID::PapusPyramid, racetype: RaceType::BossRace },
                RaceReward::Key,
            ),
        );
        r.push(
            (
                ItemLocation { levelid: LevelID::DragonMines, racetype: RaceType::BossRace },
                RaceReward::Key,
            ),
        );
        r.push(
            (
                ItemLocation { levelid: LevelID::HotAirSkyway, racetype: RaceType::BossRace },
                RaceReward::Key,
            ),
        );
    }
    proof {
        assert(r@ =~= spec_prefill_list(*rs));
    }
    r
}

proof fn lemma_first_key_index_bounds(keys: Seq<ItemLocation>, loc: ItemLocation)
    ensures
        0 <= first_key_index(keys, loc) <= keys.len(),
        first_key_index(keys, loc) < keys.len() ==> keys[first_key_index(keys, loc)] == loc,
    decreases keys.len(),
{
    if keys.len() > 0 && keys[0] != loc {
        lemma_first_key_index_bounds(keys.drop_first(), loc);
    }
}

/// No two pre-fill pairs address the same slot.
proof fn lemma_prefill_keys_distinct(rs: RewardShuffle)
    ensures
        forall|a: int, b: int|
            0 <= a < b < spec_prefill_list(rs).len() ==> (#[trigger] spec_prefill_list(rs)[a]).0
                != (#[trigger] spec_prefill_list(rs)[b]).0,
{
}

/// Every slot the pre-fill pass writes exists in the graph's key column.
pub open spec fn prefills_present(keys: Seq<ItemLocation>, rs: RewardShuffle) -> bool {
    forall|j: int|
        0 <= j < spec_prefill_list(rs).len() ==> first_key_index(
            keys,
            (#[trigger] spec_prefill_list(rs)[j]).0,
        ) < keys.len()
}

/// The pool is ordered for popping from the end: other items first, then the
/// trophies, then the keys, so keys and trophies are placed first.
pub open spec fn pool_ordered(pool: Seq<RaceReward>, a: int, b: int) -> bool {
    &&& 0 <= a <= b <= pool.len()
    &&& (forall|i: int|
        0 <= i < a ==> (#[trigger] pool[i]) != RaceReward::Key && pool[i] != RaceReward::Trophy)
    &&& (forall|i: int| a <= i < b ==> (#[trigger] pool[i]) == RaceReward::Trophy)
    &&& (forall|i: int| b <= i < pool.len() ==> (#[trigger] pool[i]) == RaceReward::Key)
}

/// Places one item pool into the location graph by assumed fill: pop an
/// item, assume the rest of the pool is in hand, compute the reachable
/// closure, and drop the item into a randomly chosen reachable empty slot;
/// repeat until the pool or the empty slots run out. A success is certified:
/// the placement covers every slot, places exactly the pool plus the
/// pre-filled rewards, keeps every pre-filled reward at its slot, and passes
/// a whole-world reachability replay from an empty inventory.
#[verifier::rlimit(60)]
pub fn get_item_placement(
    rng: &mut GameRng,
    item_pool: Vec<RaceReward>,
    reward_shuffle: &RewardShuffle,
    location_list: &Vec<(ItemLocation, Vec<UnlockRequirement>)>,
) -> (r: Result<Vec<(ItemLocation, RaceReward)>, PlacementError>)
    requires
        location_list@.len() <= u32::MAX,
        item_pool@.len() <= u32::MAX,
    ensures
        (r matches Ok(p) ==> {
            &&& p@.len() == location_list@.len()
            &&& (forall|i: int|
                0 <= i < p@.len() ==> (#[trigger] p@[i]).0 == location_list@[i].0)
            &&& placement_ok(
                location_list@.map_values(|e: (ItemLocation, Vec<UnlockRequirement>)| e.0),
                location_list@.map_values(|e: (ItemLocation, Vec<UnlockRequirement>)| e.1@),
                p@.map_values(|e: (ItemLocation, RaceReward)| Some(e.1)),
                item_pool@,
                *reward_shuffle,
            )
        }),
        (r == Err::<Vec<(ItemLocation, RaceReward)>, PlacementError>(PlacementError::MissingSlot)
            <==> !prefills_present(
            location_list@.map_values(|e: (ItemLocation, Vec<UnlockRequirement>)| e.0),
            *reward_shuffle,
        )),
        final(rng).seed == old(rng).seed,
{
    broadcast use vstd::seq_lib::group_to_multiset_ensures;
    broadcast use vstd::multiset::group_multiset_axioms;

    let ghost rs = *reward_shuffle;
    let n = location_list.len();

    // Split the graph into its key, requirement and reward columns.
    let mut keys: Vec<ItemLocation> = Vec::new();
    let mut reqs: Vec<Vec<UnlockRequirement>> = Vec::new();
    let mut rewards: Vec<Option<RaceReward>> = Vec::new();
    let mut i: usize = 0;
    while i < n
        invariant
            0 <= i <= n,
            n == location_list@.len(),
            keys@.len() == i,
            reqs@.len() == i,
            rewards@.len() == i,
            forall|j: int| 0 <= j < i ==> (#[trigger] keys@[j]) == location_list@[j].0,
            forall|j: int| 0 <= j < i ==> (#[trigger] reqs@[j])@ == location_list@[j].1@,
            forall|j: int| 0 <= j < i ==> (#[trigger] rewards@[j]) is None,
        decreases n - i,
    {
        let entry = &location_list[i];
        keys.push(entry.0);
        reqs.push(crate::locations::copy_reqs(&entry.1));
        rewards.push(None);
        i = i + 1;
    }
    proof {
        assert(keys@ =~= location_list@.map_values(
            |e: (ItemLocation, Vec<UnlockRequirement>)| e.0,
        ));
        assert(reqs_model(reqs@) =~~= location_list@.map_values(
            |e: (ItemLocation, Vec<UnlockRequirement>)| e.1@,
        ));
    }

    // Pre-place the terminal sentinel and every category kept out of the
    // pool, each at its vanilla slot.
    let prefills = build_prefill_list(reward_shuffle);
    proof {
        lemma_prefill_keys_distinct(rs);
        assert(prefill_rewards(rs).take(0) =~= Seq::<RaceReward>::empty());
        assert(rewards_ms(rewards@) =~= prefill_rewards(rs).take(0).to_multiset()) by {
            lemma_rewards_ms_all_none(rewards@);
            assert(count_true(Seq::<bool>::empty()) == 0);
        }
    }
    let mut pi: usize = 0;
    while pi < prefills.len()
        invariant
            keys@.len() == n,
            rewards@.len() == n,
            keys@ == location_list@.map_values(|e: (ItemLocation, Vec<UnlockRequirement>)| e.0),
            0 <= pi <= prefills@.len(),
            prefills@ == spec_prefill_list(rs),
            rs == *reward_shuffle,
            forall|a: int, b: int|
                0 <= a < b < spec_prefill_list(rs).len() ==> (#[trigger] spec_prefill_list(
                    rs,
                )[a]).0 != (#[trigger] spec_prefill_list(rs)[b]).0,
            rewards_ms(rewards@) == prefill_rewards(rs).take(pi as int).to_multiset(),
            forall|idx: int|
                0 <= idx < n && (#[trigger] rewards@[idx]) is Some ==> exists|j: int|
                    0 <= j < pi && keys@[idx] == (#[trigger] prefills@[j]).0 && rewards@[idx]
                        == Some(prefills@[j].1),
            forall|j: int|
                0 <= j < pi ==> prefilled_at(
                    keys@,
                    rewards@,
                    (#[trigger] prefills@[j]).0,
                    prefills@[j].1,
                ),
        decreases prefills@.len() - pi,
    {
        let (loc, v) = prefills[pi];
        let ki = find_key_index(&keys, loc);
        if ki >= keys.len() {
            proof {
                assert(first_key_index(keys@, spec_prefill_list(rs)[pi as int].0)
                    >= keys@.len());
                assert(!prefills_present(keys@, rs));
            }
            return Err(PlacementError::MissingSlot);
        }
        proof {
            if rewards@[ki as int] is Some {
                let j = choose|j: int|
                    0 <= j < pi && keys@[ki as int] == (#[trigger] prefills@[j]).0 && rewards@[ki as int]
                        == Some(prefills@[j].1);
                assert(prefills@[j].0 == prefills@[pi as int].0);
                assert(false);
            }
            lemma_rewards_ms_update(rewards@, ki as int, v);
        }
        let ghost old_rewards = rewards@;
        rewards[ki] = Some(v);
        proof {
            assert(prefill_rewards(rs).take(pi + 1) =~= prefill_rewards(rs).take(pi as int).push(
                v,
            ));
            assert(rewards_ms(rewards@) == rewards_ms(old_rewards).insert(v));
            lemma_push_ms(prefill_rewards(rs).take(pi as int), v);
            assert(rewards_ms(rewards@) == prefill_rewards(rs).take(pi + 1).to_multiset());
            assert forall|j: int|
                0 <= j < pi + 1 implies prefilled_at(
                keys@,
                rewards@,
                (#[trigger] prefills@[j]).0,
                prefills@[j].1,
            ) by {
                if j < pi {
                    lemma_first_key_index_bounds(keys@, prefills@[j].0);
                    let fj = first_key_index(keys@, prefills@[j].0);
                    assert(keys@[fj] == prefills@[j].0);
                    assert(keys@[ki as int] == prefills@[pi as int].0);
                    assert(fj != ki as int);
                } else {
                    assert(first_key_index(keys@, loc) == ki as int);
                }
            }
            assert forall|idx: int|
                0 <= idx < n && (#[trigger] rewards@[idx]) is Some implies exists|j: int|
                0 <= j < pi + 1 && keys@[idx] == (#[trigger] prefills@[j]).0 && rewards@[idx]
                    == Some(prefills@[j].1) by {
                if idx == ki as int {
                    assert(keys@[idx] == (#[trigger] prefills@[pi as int]).0 && rewards@[idx]
                        == Some(prefills@[pi as int].1));
                } else {
                    assert(old_rewards[idx] is Some);
                }
            }
        }
        pi = pi + 1;
    }
    proof {
        assert(prefill_rewards(rs).take(prefills@.len() as int) =~= prefill_rewards(rs));
        assert forall|j: int|
            0 <= j < spec_prefill_list(rs).len() implies first_key_index(
            keys@,
            (#[trigger] spec_prefill_list(rs)[j]).0,
        ) < keys@.len() by {
            assert(prefilled_at(keys@, rewards@, prefills@[j].0, prefills@[j].1));
        }
        assert(prefills_present(keys@, rs));
    }
    let ghost g0 = rewards@;

    // Shuffle the pool, then stably move trophies toward the end and keys to
    // the very end: keys and trophies gate the most locations, so placing
    // them first maximizes early reachability growth.
    let mut pool = reorder_pool(rng, item_pool);

    let ghost pool0 = pool@;
    let mut empties_exist = has_empty(&rewards);
    while empties_exist && pool.len() > 0
        invariant
            keys@.len() == n,
            reqs@.len() == n,
            rewards@.len() == n,
            n <= u32::MAX,
            empties_exist == exists|i: int| 0 <= i < n && (#[trigger] rewards@[i]) is None,
            forall|i: int| 0 <= i < n ==> (#[trigger] g0[i]) is Some ==> rewards@[i] == g0[i],
            g0.len() == n,
            rewards_ms(rewards@).add(pool@.to_multiset()) == rewards_ms(g0).add(
                pool0.to_multiset(),
            ),
            keys@ == location_list@.map_values(|e: (ItemLocation, Vec<UnlockRequirement>)| e.0),
            prefills_present(keys@, rs),
            rs == *reward_shuffle,
            rng.seed == old(rng).seed,
        decreases pool@.len(),
    {
        let ghost pool_before = pool@;
        let item = match pool.pop() {
            Some(x) => x,
            None => {
                return Err(PlacementError::PoolNotEmpty);
            },
        };
        proof {
            assert(pool_before =~= pool@.push(item));
        }

        // Assume every other item still in the pool is already in hand, so
        // the closure finds every slot that could ever be reached without
        // the item being placed right now.
        let mut assumed = PlayerInventory::new();
        let mut t: usize = 0;
        while t < pool.len()
            decreases pool@.len() - t,
        {
            assumed.add_item(pool[t]);
            t = t + 1;
        }

        let res = reach_closure(&keys, &reqs, &rewards, assumed);
        if res.empties.len() == 0 {
            return Err(PlacementError::DeadEnd);
        }
        let e = rng.choose_index(res.empties.len());
        let slot = res.empties[e];
        let ghost r_before = rewards@;
        proof {
            lemma_rewards_ms_update(rewards@, slot as int, item);
        }
        rewards[slot] = Some(item);
        proof {
            lemma_push_ms(pool@, item);
            assert(pool_before.to_multiset() == pool@.to_multiset().insert(item));
            assert(rewards_ms(rewards@) == rewards_ms(r_before).insert(item));
            assert(rewards_ms(rewards@).add(pool@.to_multiset()) =~= rewards_ms(r_before).add(
                pool_before.to_multiset(),
            ));
        }
        empties_exist = has_empty(&rewards);
    }

    if pool.len() > 0 {
        return Err(PlacementError::PoolNotEmpty);
    }
    if has_empty(&rewards) {
        return Err(PlacementError::UnfilledLocation);
    }
    proof {
        assert(pool@.to_multiset() =~= Multiset::<RaceReward>::empty()) by {
            assert(pool@ =~= Seq::<RaceReward>::empty());
            assert(Seq::<RaceReward>::empty().to_multiset().len() == 0) by {
                vstd::seq_lib::to_multiset_len(Seq::<RaceReward>::empty());
            }
        }
        assert(rewards_ms(rewards@).add(pool@.to_multiset()) =~= rewards_ms(rewards@));
        assert(rewards_ms(rewards@) =~= rewards_ms(g0).add(pool0.to_multiset()));
        assert(rewards_ms(rewards@) =~= pool0.to_multiset().add(rewards_ms(g0)));
        assert(rewards_ms(g0) == prefill_rewards(rs).to_multiset());
        assert(pool0.to_multiset() == item_pool@.to_multiset());
        assert(rewards_ms(rewards@) == item_pool@.to_multiset().add(
            prefill_rewards(rs).to_multiset(),
        ));
    }

    // Certify the finished placement: replaying the closure from an empty
    // inventory must reach every slot.
    let check = reach_closure(&keys, &reqs, &rewards, PlayerInventory::new());
    let mut c: usize = 0;
    while c < n
        invariant
            0 <= c <= n,
            n == keys@.len(),
            check.visited@.len() == n,
            forall|j: int| 0 <= j < c ==> check.visited@[j],
            keys@ == location_list@.map_values(|e: (ItemLocation, Vec<UnlockRequirement>)| e.0),
            prefills_present(keys@, rs),
            rs == *reward_shuffle,
            rng.seed == old(rng).seed,
        decreases n - c,
    {
        if !check.visited[c] {
            return Err(PlacementError::UnreachableLocation);
        }
        c = c + 1;
    }
    proof {
        assert forall|j: usize| j < keys@.len() implies #[trigger] check.order@.contains(j) by {
            assert(check.visited@[j as int]);
        }
        assert(all_reachable(keys@, reqs_model(reqs@), rewards@));
    }

    // Pair each slot with its reward.
    let mut out: Vec<(ItemLocation, RaceReward)> = Vec::new();
    let mut o: usize = 0;
    while o < n
        invariant
            0 <= o <= n,
            n == keys@.len(),
            n == rewards@.len(),
            out@.len() == o,
            keys@ == location_list@.map_values(|e: (ItemLocation, Vec<UnlockRequirement>)| e.0),
            prefills_present(keys@, rs),
            rs == *reward_shuffle,
            rng.seed == old(rng).seed,
            forall|j: int| 0 <= j < n ==> (#[trigger] rewards@[j]) is Some,
            forall|j: int|
                0 <= j < o ==> #[trigger] out@[j] == (keys@[j], rewards@[j].unwrap()),
        decreases n - o,
    {
        match rewards[o] {
            Some(x) => {
                out.push((keys[o], x));
            },
            None => {
                return Err(PlacementError::UnfilledLocation);
            },
        }
        o = o + 1;
    }
    proof {
        assert(out@.map_values(|e: (ItemLocation, RaceReward)| Some(e.1)) =~= rewards@);
        assert(out@.map_values(|e: (ItemLocation, RaceReward)| e.0) =~= keys@);
        assert forall|j: int| 0 <= j < spec_prefill_list(rs).len() implies prefilled_at(
            keys@,
            rewards@,
            (#[trigger] spec_prefill_list(rs)[j]).0,
            spec_prefill_list(rs)[j].1,
        ) by {
            let loc = spec_prefill_list(rs)[j].0;
            lemma_first_key_index_bounds(keys@, loc);
            let fj = first_key_index(keys@, loc);
            assert(prefilled_at(keys@, g0, loc, spec_prefill_list(rs)[j].1));
            assert(g0[fj] is Some);
            assert(rewards@[fj] == g0[fj]);
        }
        assert(placement_ok(
            keys@,
            reqs_model(reqs@),
            rewards@,
            item_pool@,
            rs,
        ));
    }
    Ok(out)
}

/// An all-empty reward column has placed nothing.
proof fn lemma_rewards_ms_all_none(rewards: Seq<Option<RaceReward>>)
    requires
        forall|i: int| 0 <= i < rewards.len() ==> (#[trigger] rewards[i]) is None,
    ensures
        rewards_ms(rewards) =~= Multiset::<RaceReward>::empty(),
    decreases rewards.len(),
{
    if rewards.len() > 0 {
        lemma_rewards_ms_all_none(rewards.drop_last());
    }
}

/// The item pool of one generation: 16 trophies, 4 tokens of each of the
/// five colors, 18 sapphire and 18 gold relics; plus, per operator choice,
/// the 4 keys, the 5 gems, and the 18 platinum relics.
pub open spec fn spec_item_pool(rs: RewardShuffle) -> Seq<RaceReward> {
    Seq::new(16, |i: int| RaceReward::Trophy) + Seq::new(4, |i: int| RaceReward::RedCtrToken)
        + Seq::new(4, |i: int| RaceReward::GreenCtrToken) + Seq::new(
        4,
        |i: int| RaceReward::BlueCtrToken,
    ) + Seq::new(4, |i: int| RaceReward::YellowCtrToken) + Seq::new(
        4,
        |i: int| RaceReward::PurpleCtrToken,
    ) + Seq::new(18, |i: int| RaceReward::SapphireRelic) + Seq::new(
        18,
        |i: int| RaceReward::GoldRelic,
    ) + (if rs.include_keys {
        Seq::new(4, |i: int| RaceReward::Key)
    } else {
        Seq::empty()
    }) + (if rs.include_gems {
        seq![
            RaceReward::RedGem,
            RaceReward::GreenGem,
            RaceReward::BlueGem,
            RaceReward::YellowGem,
            RaceReward::PurpleGem,
        ]
    } else {
        Seq::empty()
    }) + (if rs.include_platinum_relics {
        Seq::new(18, |i: int| RaceReward::PlatinumRelic)
    } else {
        Seq::empty()
    })
}

/// Appends `n` copies of one reward.
fn push_n(v: &mut Vec<RaceReward>, x: RaceReward, n: usize)
    ensures
        final(v)@ == old(v)@ + Seq::new(n as nat, |i: int| x),
{
    let mut k: usize = 0;
    while k < n
        invariant
            0 <= k <= n,
            v@ =~= old(v)@ + Seq::new(k as nat, |i: int| x),
        decreases n - k,
    {
        v.push(x);
        proof {
            assert(v@ =~= old(v)@ + Seq::new((k + 1) as nat, |i: int| x));
        }
        k = k + 1;
    }
}

/// Builds the item pool; see [`spec_item_pool`].
pub fn build_item_pool(reward_shuffle: &RewardShuffle) -> (r: Vec<RaceReward>)
    ensures
        r@ == spec_item_pool(*reward_shuffle),
{
    let mut r: Vec<RaceReward> = Vec::new();
    push_n(&mut r, RaceReward::Trophy, 16);
    push_n(&mut r, RaceReward::RedCtrToken, 4);
    push_n(&mut r, RaceReward::GreenCtrToken, 4);
    push_n(&mut r, RaceReward::BlueCtrToken, 4);
    push_n(&mut r, RaceReward::YellowCtrToken, 4);
    push_n(&mut r, RaceReward::PurpleCtrToken, 4);
    push_n(&mut r, RaceReward::SapphireRelic, 18);
    push_n(&mut r, RaceReward::GoldRelic, 18);
    if reward_shuffle.include_keys {
        push_n(&mut r, RaceReward::Key, 4);
    }
    if reward_shuffle.include_gems {
        r.push(RaceReward::RedGem);
        r.push(RaceReward::GreenGem);
        r.push(RaceReward::BlueGem);
        r.push(RaceReward::YellowGem);
        r.push(RaceReward::PurpleGem);
    }
    if reward_shuffle.include_platinum_relics {
        push_n(&mut r, RaceReward::PlatinumRelic, 18);
    }
    proof {
        assert(r@ =~= spec_item_pool(*reward_shuffle));
    }
    r
}

/// A fresh vector holding the same rewards.
fn copy_pool(v: &Vec<RaceReward>) -> (r: Vec<RaceReward>)
    ensures
        r@ == v@,
{
    let mut r: Vec<RaceReward> = Vec::new();
    let mut i: usize = 0;
    while i < v.len()
        invariant
            0 <= i <= v@.len(),
            r@ =~= v@.take(i as int),
        decreases v@.len() - i,
    {
        r.push(v[i]);
        proof {
            assert(r@ =~= v@.take(i + 1));
        }
        i = i + 1;
    }
    proof {
        assert(v@.take(v@.len() as int) =~= v@);
    }
    r
}

/// Builds the item pool and the location graph of the given world state,
/// then runs the assumed-fill placement, retrying with fresh random draws up
/// to ten more times when an attempt runs into a dead pool. A success
/// satisfies [`placement_ok`] against the graph and the pool; exhausting
/// every attempt, a malformed world, and an internally inconsistent attempt
/// are reported as distinct failures.
pub fn get_shuffled_rewards(
    rng: &mut GameRng,
    reward_shuffle: &RewardShuffle,
    warppad_links: &Vec<(LevelID, LevelID)>,
    warppad_unlocks: &Vec<((LevelID, UnlockStage), Option<UnlockRequirementItem>)>,
    bossgarage_requirements: &Vec<(BossCharacter, UnlockRequirement)>,
    hub_requirements: &Vec<(Hubs, Option<UnlockRequirementItem>)>,
) -> (r: Result<Vec<(ItemLocation, RaceReward)>, GenerationError>)
    ensures
        (r matches Ok(p) ==> {
            let ll = spec_location_list(
                warppad_links@,
                warppad_unlocks@,
                bossgarage_requirements@,
                hub_requirements@,
            );
            &&& p@.len() == ll.len()
            &&& (forall|i: int| 0 <= i < p@.len() ==> (#[trigger] p@[i]).0 == ll[i].0)
            &&& placement_ok(
                ll.map_values(|e: (ItemLocation, Seq<UnlockRequirement>)| e.0),
                ll.map_values(|e: (ItemLocation, Seq<UnlockRequirement>)| e.1),
                p@.map_values(|e: (ItemLocation, RaceReward)| Some(e.1)),
                spec_item_pool(*reward_shuffle),
                *reward_shuffle,
            )
        }),
        (r == Err::<Vec<(ItemLocation, RaceReward)>, GenerationError>(
            GenerationError::PlacementExhausted,
        ) ==> graph_inputs_ok(
            warppad_links@,
            warppad_unlocks@,
            bossgarage_requirements@,
            hub_requirements@,
        )),
        (r == Err::<Vec<(ItemLocation, RaceReward)>, GenerationError>(
            GenerationError::MalformedWorld,
        ) ==> {
            let ll = spec_location_list(
                warppad_links@,
                warppad_unlocks@,
                bossgarage_requirements@,
                hub_requirements@,
            );
            ||| !graph_inputs_ok(
                warppad_links@,
                warppad_unlocks@,
                bossgarage_requirements@,
                hub_requirements@,
            )
            ||| ll.len() > u32::MAX
            ||| !prefills_present(
                ll.map_values(|e: (ItemLocation, Seq<UnlockRequirement>)| e.0),
                *reward_shuffle,
            )
        }),
        final(rng).seed == old(rng).seed,
{
    let item_pool = build_item_pool(reward_shuffle);
    let location_list = match get_location_list(
        warppad_links,
        warppad_unlocks,
        bossgarage_requirements,
        hub_requirements,
    ) {
        Ok(ll) => ll,
        Err(e) => {
            return Err(e);
        },
    };
    if location_list.len() > u32::MAX as usize {
        return Err(GenerationError::MalformedWorld);
    }
    proof {
        let ll = spec_location_list(
            warppad_links@,
            warppad_unlocks@,
            bossgarage_requirements@,
            hub_requirements@,
        );
        assert(location_list@.map_values(|e: (ItemLocation, Vec<UnlockRequirement>)| e.0)
            =~= ll.map_values(|e: (ItemLocation, Seq<UnlockRequirement>)| e.0));
        assert(location_list@.map_values(|e: (ItemLocation, Vec<UnlockRequirement>)| e.1@)
            =~~= ll.map_values(|e: (ItemLocation, Seq<UnlockRequirement>)| e.1));
    }
    let mut attempt: usize = 0;
    while attempt < 11
        invariant
            0 <= attempt <= 11,
            item_pool@ == spec_item_pool(*reward_shuffle),
            location_list@.len() <= u32::MAX,
            crate::locations::view_entries(location_list@) == spec_location_list(
                warppad_links@,
                warppad_unlocks@,
                bossgarage_requirements@,
                hub_requirements@,
            ),
            graph_inputs_ok(
                warppad_links@,
                warppad_unlocks@,
                bossgarage_requirements@,
                hub_requirements@,
            ),
            rng.seed == old(rng).seed,
        decreases 11 - attempt,
    {
        let pool = copy_pool(&item_pool);
        match get_item_placement(rng, pool, reward_shuffle, &location_list) {
            Ok(p) => {
                proof {
                    let ll = spec_location_list(
                        warppad_links@,
                        warppad_unlocks@,
                        bossgarage_requirements@,
                        hub_requirements@,
                    );
                    assert(location_list@.map_values(
                        |e: (ItemLocation, Vec<UnlockRequirement>)| e.0,
                    ) =~= ll.map_values(|e: (ItemLocation, Seq<UnlockRequirement>)| e.0));
                    assert(location_list@.map_values(
                        |e: (ItemLocation, Vec<UnlockRequirement>)| e.1@,
                    ) =~~= ll.map_values(|e: (ItemLocation, Seq<UnlockRequirement>)| e.1));
                }
                return Ok(p);
            },
            Err(PlacementError::DeadEnd) => {},
            Err(PlacementError::UnreachableLocation) => {},
            Err(PlacementError::MissingSlot) => {
                proof {
                    let ll = spec_location_list(
                        warppad_links@,
                        warppad_unlocks@,
                        bossgarage_requirements@,
                        hub_requirements@,
                    );
                    assert(location_list@.map_values(
                        |e: (ItemLocation, Vec<UnlockRequirement>)| e.0,
                    ) =~= ll.map_values(|e: (ItemLocation, Seq<UnlockRequirement>)| e.0));
                }
                return Err(GenerationError::MalformedWorld);
            },
            Err(_) => {
                return Err(GenerationError::InternalInconsistency);
            },
        }
        attempt = attempt + 1;
    }
    Err(GenerationError::PlacementExhausted)
}

/// Shuffles the pool, then stably reorders it so that trophies sit toward
/// the popping end and keys at the very end: keys and trophies gate the most
/// locations, so they are placed first. The pool's contents are kept.
fn reorder_pool(rng: &mut GameRng, pool: Vec<RaceReward>) -> (r: Vec<RaceReward>)
    requires
        pool@.len() <= u32::MAX,
    ensures
        r@.to_multiset() == pool@.to_multiset(),
        r@.len() == pool@.len(),
        exists|a: int, b: int| #[trigger] pool_ordered(r@, a, b),
        final(rng).seed == old(rng).seed,
{
    broadcast use vstd::seq_lib::group_to_multiset_ensures;
    broadcast use vstd::multiset::group_multiset_axioms;

    let mut shuffled = pool;
    rng.shuffle(&mut shuffled);
    let mut others: Vec<RaceReward> = Vec::new();
    let mut trophies: Vec<RaceReward> = Vec::new();
    let mut keyvec: Vec<RaceReward> = Vec::new();
    let mut i: usize = 0;
    while i < shuffled.len()
        invariant
            0 <= i <= shuffled@.len(),
            others@.to_multiset().add(trophies@.to_multiset()).add(keyvec@.to_multiset())
                == shuffled@.take(i as int).to_multiset(),
            others@.len() + trophies@.len() + keyvec@.len() == i,
            forall|t: int|
                0 <= t < others@.len() ==> (#[trigger] others@[t]) != RaceReward::Key && others@[t]
                    != RaceReward::Trophy,
            forall|t: int| 0 <= t < trophies@.len() ==> (#[trigger] trophies@[t]) == RaceReward::Trophy,
            forall|t: int| 0 <= t < keyvec@.len() ==> (#[trigger] keyvec@[t]) == RaceReward::Key,
        decreases shuffled@.len() - i,
    {
        let ghost before = others@.to_multiset().add(trophies@.to_multiset()).add(
            keyvec@.to_multiset(),
        );
        let ghost ob = others@;
        let ghost tb = trophies@;
        let ghost kb = keyvec@;
        let x = shuffled[i];
        match x {
            RaceReward::Key => {
                keyvec.push(x);
                proof {
                    lemma_push_ms(kb, x);
                }
            },
            RaceReward::Trophy => {
                trophies.push(x);
                proof {
                    lemma_push_ms(tb, x);
                }
            },
            _ => {
                others.push(x);
                proof {
                    lemma_push_ms(ob, x);
                }
            },
        }
        proof {
            assert(shuffled@.take(i + 1) =~= shuffled@.take(i as int).push(x));
            lemma_push_ms(shuffled@.take(i as int), x);
            assert(others@.to_multiset().add(trophies@.to_multiset()).add(keyvec@.to_multiset())
                =~= before.insert(x));
        }
        i = i + 1;
    }
    proof {
        assert(shuffled@.take(shuffled@.len() as int) =~= shuffled@);
    }
    let ghost o0 = others@;
    let ghost t0 = trophies@;
    let ghost k0 = keyvec@;
    let mut r = others;
    let mut trophies2 = trophies;
    let mut keyvec2 = keyvec;
    r.append(&mut trophies2);
    r.append(&mut keyvec2);
    proof {
        assert(r@ =~= o0 + t0 + k0);
        lemma_multiset_commutative(o0, t0);
        lemma_multiset_commutative(o0 + t0, k0);
        let a = o0.len() as int;
        let b = (o0.len() + t0.len()) as int;
        assert(pool_ordered(r@, a, b)) by {
            assert forall|t: int| 0 <= t < a implies (#[trigger] r@[t]) != RaceReward::Key && r@[t]
                != RaceReward::Trophy by {
                assert(r@[t] == o0[t]);
            }
            assert forall|t: int| a <= t < b implies (#[trigger] r@[t]) == RaceReward::Trophy by {
                assert(r@[t] == t0[t - a]);
            }
            assert forall|t: int| b <= t < r@.len() implies (#[trigger] r@[t]) == RaceReward::Key
                by {
                assert(r@[t] == k0[t - b]);
            }
        }
    }
    r
}

} // verus!
