//! The warp-pad shuffler: permutes which track each warp pad leads to, within
//! category partitions. Pads of a category the operator left out keep their
//! links; pads of an included category are shuffled among themselves when the
//! unlock costs stay vanilla (so non-trophy pads never land on trophy-pad
//! gating logic), and everything else is shuffled freely. A gem-cup track
//! must never land on the pad gated by five gems, since that cup would then
//! hand out the gems its own gate asks for.

use vstd::prelude::*;

use crate::data::{GenerationError, LevelID};
use crate::prng::GameRng;

verus! {

/// The shuffle class of one pad, decided by its vanilla slot: `0` keeps its
/// link, `1` is shuffled within its category, `2` is shuffled freely.
pub open spec fn shuffle_class(
    slot: LevelID,
    include_battle_arenas: bool,
    include_gem_cups: bool,
    vanilla_unlock_requirements: bool,
) -> int {
    if slot.spec_is_arena() {
        if !include_battle_arenas {
            0
        } else if vanilla_unlock_requirements {
            1
        } else {
            2
        }
    } else if slot.spec_is_cup() {
        if !include_gem_cups {
            0
        } else if vanilla_unlock_requirements {
            1
        } else {
            2
        }
    } else if slot.spec_is_relic_only() {
        if vanilla_unlock_requirements {
            1
        } else {
            2
        }
    } else {
        2
    }
}

/// Executable form of [`shuffle_class`].
fn shuffle_class_exec(
    slot: LevelID,
    include_battle_arenas: bool,
    include_gem_cups: bool,
    vanilla_unlock_requirements: bool,
) -> (r: u8)
    ensures
        r as int == shuffle_class(
            slot,
            include_battle_arenas,
            include_gem_cups,
            vanilla_unlock_requirements,
        ),
{
    if slot.is_arena() {
        if !include_battle_arenas {
            0
        } else if vanilla_unlock_requirements {
            1
        } else {
            2
        }
    } else if slot.is_cup() {
        if !include_gem_cups {
            0
        } else if vanilla_unlock_requirements {
            1
        } else {
            2
        }
    } else if slot.is_relic_only() {
        if vanilla_unlock_requirements {
            1
        } else {
            2
        }
    } else {
        2
    }
}

/// The values of a column at the given positions, in position-list order.
pub open spec fn values_at(vals: Seq<LevelID>, idxs: Seq<usize>) -> Seq<LevelID> {
    Seq::new(idxs.len(), |t: int| vals[idxs[t] as int])
}

/// The positions whose slot falls in shuffle class `class`, ascending.
pub open spec fn class_indices(
    slots: Seq<LevelID>,
    include_battle_arenas: bool,
    include_gem_cups: bool,
    vanilla_unlock_requirements: bool,
    class: int,
) -> Seq<usize>
    decreases slots.len(),
{
    if slots.len() == 0 {
        Seq::empty()
    } else {
        let prefix = class_indices(
            slots.drop_last(),
            include_battle_arenas,
            include_gem_cups,
            vanilla_unlock_requirements,
            class,
        );
        if shuffle_class(
            slots.last(),
            include_battle_arenas,
            include_gem_cups,
            vanilla_unlock_requirements,
        ) == class {
            prefix.push((slots.len() - 1) as usize)
        } else {
            prefix
        }
    }
}

/// Everything a successful shuffle promises of its output against its input:
/// the slots and their order are kept; the multiset of target tracks is kept
/// globally, so the result reaches exactly the tracks the input reached;
/// every pad of a left-out category keeps its link; each shuffled partition
/// is closed, its targets a permutation of the input targets of the same
/// partition; and, under vanilla unlock costs, no gem-cup track sits on the
/// five-gem pad.
pub open spec fn shuffled_links_ok(
    shuffled: Seq<(LevelID, LevelID)>,
    original: Seq<(LevelID, LevelID)>,
    include_battle_arenas: bool,
    include_gem_cups: bool,
    vanilla_unlock_requirements: bool,
) -> bool {
    let slots = original.map_values(|e: (LevelID, LevelID)| e.0);
    let old_targets = original.map_values(|e: (LevelID, LevelID)| e.1);
    let new_targets = shuffled.map_values(|e: (LevelID, LevelID)| e.1);
    let pre = class_indices(
        slots,
        include_battle_arenas,
        include_gem_cups,
        vanilla_unlock_requirements,
        1,
    );
    let free = class_indices(
        slots,
        include_battle_arenas,
        include_gem_cups,
        vanilla_unlock_requirements,
        2,
    );
    &&& shuffled.len() == original.len()
    &&& (forall|i: int|
        0 <= i < shuffled.len() ==> (#[trigger] shuffled[i]).0 == original[i].0)
    &&& new_targets.to_multiset() == old_targets.to_multiset()
    &&& (forall|i: int|
        0 <= i < shuffled.len() && shuffle_class(
            (#[trigger] shuffled[i]).0,
            include_battle_arenas,
            include_gem_cups,
            vanilla_unlock_requirements,
        ) == 0 ==> shuffled[i].1 == original[i].1)
    &&& values_at(new_targets, pre).to_multiset() == values_at(old_targets, pre).to_multiset()
    &&& values_at(new_targets, free).to_multiset() == values_at(old_targets, free).to_multiset()
    &&& (vanilla_unlock_requirements ==> forall|i: int|
        0 <= i < shuffled.len() && (#[trigger] shuffled[i]).0 == LevelID::TurboTrack ==> !(
        shuffled[i].1.spec_is_cup()))
}

/// Permutes the values at the given distinct positions in place with a
/// backwards swap pass; every other position is untouched, and both the
/// whole column and the sub-column at the given positions keep their
/// multisets of values.
fn shuffle_positions(rng: &mut GameRng, vals: &mut Vec<LevelID>, idxs: &Vec<usize>)
    requires
        forall|k: int| 0 <= k < idxs@.len() ==> (#[trigger] idxs@[k] as int) < old(vals)@.len(),
        idxs@.no_duplicates(),
        idxs@.len() <= u32::MAX,
    ensures
        final(vals)@.len() == old(vals)@.len(),
        final(vals)@.to_multiset() == old(vals)@.to_multiset(),
        forall|i: int|
            0 <= i < old(vals)@.len() && !idxs@.contains(i as usize) ==> final(vals)@[i] == old(
                vals,
            )@[i],
        values_at(final(vals)@, idxs@).to_multiset() == values_at(old(vals)@, idxs@).to_multiset(),
        final(rng).seed == old(rng).seed,
{
    if idxs.len() < 2 {
        return ;
    }
    let mut k: usize = idxs.len();
    while k >= 2
        invariant
            2 <= k <= idxs@.len() || k == 1,
            idxs@.len() <= u32::MAX,
            idxs@.no_duplicates(),
            forall|t: int| 0 <= t < idxs@.len() ==> (#[trigger] idxs@[t] as int) < vals@.len(),
            vals@.len() == old(vals)@.len(),
            vals@.to_multiset() == old(vals)@.to_multiset(),
            forall|i: int|
                0 <= i < old(vals)@.len() && !idxs@.contains(i as usize) ==> vals@[i] == old(
                    vals,
                )@[i],
            values_at(vals@, idxs@).to_multiset() == values_at(old(vals)@, idxs@).to_multiset(),
            rng.seed == old(rng).seed,
        decreases k,
    {
        let t = k - 1;
        let j = rng.choose_index(t + 1);
        let pos_a = idxs[t];
        let pos_b = idxs[j];
        let ghost prev = vals@;
        let a = vals[pos_a];
        let b = vals[pos_b];
        vals[pos_a] = b;
        vals[pos_b] = a;
        proof {
            assert(vals@ =~= prev.update(pos_a as int, prev[pos_b as int]).update(
                pos_b as int,
                prev[pos_a as int],
            ));
            crate::prng::lemma_swap_multiset(prev, vals@, pos_a as int, pos_b as int);
            assert(idxs@.contains(idxs@[t as int]));
            assert(idxs@.contains(idxs@[j as int]));
            // The sub-column at the positions sees the same two entries
            // exchanged: position equality forces index equality since the
            // positions are distinct.
            assert(values_at(vals@, idxs@) =~= values_at(prev, idxs@).update(
                t as int,
                prev[pos_b as int],
            ).update(j as int, prev[pos_a as int])) by {
                assert forall|u: int| 0 <= u < idxs@.len() implies values_at(vals@, idxs@)[u]
                    == values_at(prev, idxs@).update(t as int, prev[pos_b as int]).update(
                    j as int,
                    prev[pos_a as int],
                )[u] by {
                    if u != t && u != j {
                        assert(idxs@[u] != idxs@[t as int]);
                        assert(idxs@[u] != idxs@[j as int]);
                    }
                }
            }
            crate::prng::lemma_swap_multiset(
                values_at(prev, idxs@),
                values_at(vals@, idxs@),
                t as int,
                j as int,
            );
        }
        k = k - 1;
    }
}

/// Whether a gem-cup track currently sits on the five-gem warp pad.
fn cup_at_turbotrack(keys: &Vec<LevelID>, vals: &Vec<LevelID>) -> (r: bool)
    requires
        keys@.len() == vals@.len(),
    ensures
        r == exists|i: int|
            0 <= i < keys@.len() && keys@[i] == LevelID::TurboTrack && (
            #[trigger] vals@[i]).spec_is_cup(),
{
    let mut i: usize = 0;
    while i < keys.len()
        invariant
            0 <= i <= keys@.len(),
            keys@.len() == vals@.len(),
            forall|j: int|
                0 <= j < i ==> !(keys@[j] == LevelID::TurboTrack && (
                #[trigger] vals@[j]).spec_is_cup()),
        decreases keys@.len() - i,
    {
        if keys[i] == LevelID::TurboTrack && vals[i].is_cup() {
            return true;
        }
        i = i + 1;
    }
    false
}

/// Permutes the original-slot to current-track mapping within its shuffle
/// partitions; see [`shuffled_links_ok`] for everything a success promises.
/// The category-locked partition is redrawn until no gem-cup track sits on
/// the five-gem pad; the redraw bound is far beyond any realistic number of
/// collisions, and exhausting it is surfaced as an error rather than merged
/// silently. Exhaustion can only happen at all when that partition holds a
/// gem-cup target to begin with.
#[verifier::rlimit(30)]
pub fn get_shuffled_warppads(
    rng: &mut GameRng,
    original_warppads: &Vec<(LevelID, LevelID)>,
    include_battle_arenas: bool,
    include_gem_cups: bool,
    vanilla_unlock_requirements: bool,
) -> (r: Result<Vec<(LevelID, LevelID)>, GenerationError>)
    requires
        original_warppads@.len() <= u32::MAX,
    ensures
        (r matches Ok(v) ==> shuffled_links_ok(
            v@,
            original_warppads@,
            include_battle_arenas,
            include_gem_cups,
            vanilla_unlock_requirements,
        )),
        (r is Err ==> vanilla_unlock_requirements && exists|j: int|
            0 <= j < original_warppads@.len() && shuffle_class(
                (#[trigger] original_warppads@[j]).0,
                include_battle_arenas,
                include_gem_cups,
                vanilla_unlock_requirements,
            ) == 1 && original_warppads@[j].1.spec_is_cup()),
{
    let n = original_warppads.len();
    let mut keys: Vec<LevelID> = Vec::new();
    let mut vals: Vec<LevelID> = Vec::new();
    let mut i: usize = 0;
    while i < n
        invariant
            0 <= i <= n,
            n == original_warppads@.len(),
            keys@.len() == i,
            vals@.len() == i,
            forall|j: int| 0 <= j < i ==> (#[trigger] keys@[j]) == original_warppads@[j].0,
            forall|j: int| 0 <= j < i ==> (#[trigger] vals@[j]) == original_warppads@[j].1,
        decreases n - i,
    {
        let (k, v) = original_warppads[i];
        keys.push(k);
        vals.push(v);
        i = i + 1;
    }
    let ghost vals0 = vals@;
    proof {
        assert(keys@ =~= original_warppads@.map_values(|e: (LevelID, LevelID)| e.0));
        assert(vals0 =~= original_warppads@.map_values(|e: (LevelID, LevelID)| e.1));
    }

    // Partition the positions by shuffle class, ascending.
    let mut pre_idx: Vec<usize> = Vec::new();
    let mut rest_idx: Vec<usize> = Vec::new();
    proof {
        assert(keys@.take(0) =~= Seq::<LevelID>::empty());
    }
    let mut c: usize = 0;
    while c < n
        invariant
            0 <= c <= n,
            n == keys@.len(),
            pre_idx@.len() <= c,
            rest_idx@.len() <= c,
            pre_idx@ == class_indices(
                keys@.take(c as int),
                include_battle_arenas,
                include_gem_cups,
                vanilla_unlock_requirements,
                1,
            ),
            rest_idx@ == class_indices(
                keys@.take(c as int),
                include_battle_arenas,
                include_gem_cups,
                vanilla_unlock_requirements,
                2,
            ),
        decreases n - c,
    {
        let cls = shuffle_class_exec(
            keys[c],
            include_battle_arenas,
            include_gem_cups,
            vanilla_unlock_requirements,
        );
        if cls == 1 {
            pre_idx.push(c);
        } else if cls == 2 {
            rest_idx.push(c);
        }
        proof {
            assert(keys@.take(c + 1).drop_last() =~= keys@.take(c as int));
            assert(keys@.take(c + 1).last() == keys@[c as int]);
        }
        c = c + 1;
    }
    proof {
        assert(keys@.take(n as int) =~= keys@);
    }
    let ghost pre = pre_idx@;
    let ghost free = rest_idx@;
    proof {
        lemma_class_indices_facts(
            keys@,
            include_battle_arenas,
            include_gem_cups,
            vanilla_unlock_requirements,
            1,
        );
        lemma_class_indices_facts(
            keys@,
            include_battle_arenas,
            include_gem_cups,
            vanilla_unlock_requirements,
            2,
        );
    }

    // Shuffle the category-locked partition, redrawing its permutation until
    // no gem-cup track sits on the five-gem pad; that pad's slot is in this
    // partition exactly when the unlock costs stay vanilla.
    if pre_idx.len() > 0 {
        shuffle_positions(rng, &mut vals, &pre_idx);
        let mut bad = cup_at_turbotrack(&keys, &vals);
        let mut tries: usize = 0;
        while bad && tries < 100000
            invariant
                keys@.len() == n,
                vals@.len() == n,
                vals0.len() == n,
                vals@.to_multiset() == vals0.to_multiset(),
                forall|i: int|
                    0 <= i < n && !(#[trigger] pre.contains(i as usize)) ==> vals@[i] == vals0[i],
                values_at(vals@, pre).to_multiset() == values_at(vals0, pre).to_multiset(),
                forall|t: int| 0 <= t < pre.len() ==> (#[trigger] pre[t] as int) < n,
                pre.no_duplicates(),
                pre.len() <= u32::MAX,
                pre_idx@ == pre,
                bad == exists|i: int|
                    0 <= i < n && keys@[i] == LevelID::TurboTrack && (
                    #[trigger] vals@[i]).spec_is_cup(),
                rng.seed == old(rng).seed,
            decreases 100000 - tries,
        {
            shuffle_positions(rng, &mut vals, &pre_idx);
            bad = cup_at_turbotrack(&keys, &vals);
            tries = tries + 1;
        }
        if bad {
            proof {
                // A cup still sits on the five-gem pad, so the locked
                // partition held a gem-cup target from the start: its target
                // multiset is unchanged, so the cup seen now was in it.
                assert(pre.len() > 0);
                assert(shuffle_class(
                    keys@[pre[0] as int],
                    include_battle_arenas,
                    include_gem_cups,
                    vanilla_unlock_requirements,
                ) == 1);
                assert(vanilla_unlock_requirements);
                let i = choose|i: int|
                    0 <= i < n && keys@[i] == LevelID::TurboTrack && (
                    #[trigger] vals@[i]).spec_is_cup();
                assert(shuffle_class(
                    keys@[i],
                    include_battle_arenas,
                    include_gem_cups,
                    vanilla_unlock_requirements,
                ) == 1);
                assert(pre.contains(i as usize));
                let t = choose|t: int| 0 <= t < pre.len() && pre[t] == i as usize;
                assert(values_at(vals@, pre)[t] == vals@[i]);
                assert(values_at(vals@, pre).contains(vals@[i]));
                vstd::seq_lib::to_multiset_contains(values_at(vals@, pre), vals@[i]);
                vstd::seq_lib::to_multiset_contains(values_at(vals0, pre), vals@[i]);
                assert(values_at(vals0, pre).contains(vals@[i]));
                let w = choose|w: int|
                    0 <= w < values_at(vals0, pre).len() && values_at(vals0, pre)[w] == vals@[i];
                assert(original_warppads@[pre[w] as int].1 == vals0[pre[w] as int]);
                assert(original_warppads@[pre[w] as int].0 == keys@[pre[w] as int]);
            }
            return Err(GenerationError::ShuffleExhausted);
        }
    }
    proof {
        // Once the locked partition settles, no gem-cup track sits on the
        // five-gem pad: the redraw loop only exits cleanly, and a world
        // without that pad's slot in the locked partition has no such pad.
        if vanilla_unlock_requirements {
            assert forall|i: int|
                0 <= i < n && keys@[i] == LevelID::TurboTrack implies !((
            #[trigger] vals@[i]).spec_is_cup()) by {
                assert(shuffle_class(
                    keys@[i],
                    include_battle_arenas,
                    include_gem_cups,
                    vanilla_unlock_requirements,
                ) == 1);
                assert(pre.contains(i as usize));
                assert(pre.len() > 0);
            }
        }
    }
    let ghost vals1 = vals@;

    // Shuffle the free partition.
    shuffle_positions(rng, &mut vals, &rest_idx);

    // Reassemble the mapping.
    let mut r: Vec<(LevelID, LevelID)> = Vec::new();
    let mut b: usize = 0;
    while b < n
        invariant
            0 <= b <= n,
            n == keys@.len(),
            n == vals@.len(),
            r@.len() == b,
            forall|j: int| 0 <= j < b ==> (#[trigger] r@[j]) == (keys@[j], vals@[j]),
        decreases n - b,
    {
        r.push((keys[b], vals[b]));
        b = b + 1;
    }
    proof {
        let new_targets = r@.map_values(|e: (LevelID, LevelID)| e.1);
        assert(new_targets =~= vals@);
        assert(r@.map_values(|e: (LevelID, LevelID)| e.0) =~= keys@);

        // Class-0 pads and the locked partition's positions are untouched by
        // the free shuffle; the locked partition's positions are untouched
        // after its own redraw loop settles.
        assert forall|i: int| 0 <= i < n && !free.contains(i as usize) implies vals@[i] == vals1[i]
            by {}
        assert forall|i: int| 0 <= i < n && !pre.contains(i as usize) implies vals1[i] == vals0[i]
            by {}
        assert forall|i: int|
            0 <= i < r@.len() && shuffle_class(
                (#[trigger] r@[i]).0,
                include_battle_arenas,
                include_gem_cups,
                vanilla_unlock_requirements,
            ) == 0 implies r@[i].1 == original_warppads@[i].1 by {
            assert(!pre.contains(i as usize));
            assert(!free.contains(i as usize));
        }

        // Partition closure: the locked sub-column was permuted before the
        // free shuffle and pinned by it; the free sub-column was pinned
        // through the locked phase and permuted after.
        assert(values_at(vals@, pre) =~= values_at(vals1, pre)) by {
            assert forall|t: int| 0 <= t < pre.len() implies vals@[pre[t] as int]
                == vals1[pre[t] as int] by {
                assert(pre.contains(pre[t]));
                assert(!free.contains(pre[t]));
            }
        }
        assert(values_at(vals1, pre).to_multiset() == values_at(vals0, pre).to_multiset());
        assert(values_at(vals1, free) =~= values_at(vals0, free)) by {
            assert forall|t: int| 0 <= t < free.len() implies vals1[free[t] as int]
                == vals0[free[t] as int] by {
                assert(free.contains(free[t]));
                assert(!pre.contains(free[t]));
            }
        }

        // Gem-cup exclusion: the five-gem pad's slot is locked under vanilla
        // costs, so the settled redraw decides its target for good.
        if vanilla_unlock_requirements {
            assert forall|i: int|
                0 <= i < r@.len() && (#[trigger] r@[i]).0 == LevelID::TurboTrack implies !(
            r@[i].1.spec_is_cup()) by {
                assert(shuffle_class(
                    keys@[i],
                    include_battle_arenas,
                    include_gem_cups,
                    vanilla_unlock_requirements,
                ) == 1);
                assert(pre.contains(i as usize));
                assert(pre.len() > 0);
                assert(!free.contains(i as usize));
                assert(vals@[i] == vals1[i]);
            }
        }
        assert(shuffled_links_ok(
            r@,
            original_warppads@,
            include_battle_arenas,
            include_gem_cups,
            vanilla_unlock_requirements,
        ));
    }
    Ok(r)
}

/// Each class-index list holds distinct in-range positions of exactly its
/// class, covers every position of its class, and classes are disjoint.
proof fn lemma_class_indices_facts(
    slots: Seq<LevelID>,
    include_battle_arenas: bool,
    include_gem_cups: bool,
    vanilla_unlock_requirements: bool,
    class: int,
)
    requires
        slots.len() <= usize::MAX,
    ensures
        ({
            let idxs = class_indices(
                slots,
                include_battle_arenas,
                include_gem_cups,
                vanilla_unlock_requirements,
                class,
            );
            &&& idxs.no_duplicates()
            &&& (forall|t: int|
                0 <= t < idxs.len() ==> (#[trigger] idxs[t] as int) < slots.len() && shuffle_class(
                    slots[idxs[t] as int],
                    include_battle_arenas,
                    include_gem_cups,
                    vanilla_unlock_requirements,
                ) == class)
            &&& (forall|i: usize|
                (i as int) < slots.len() && shuffle_class(
                    slots[i as int],
                    include_battle_arenas,
                    include_gem_cups,
                    vanilla_unlock_requirements,
                ) == class ==> #[trigger] idxs.contains(i))
        }),
    decreases slots.len(),
{
    if slots.len() > 0 {
        lemma_class_indices_facts(
            slots.drop_last(),
            include_battle_arenas,
            include_gem_cups,
            vanilla_unlock_requirements,
            class,
        );
        let prefix = class_indices(
            slots.drop_last(),
            include_battle_arenas,
            include_gem_cups,
            vanilla_unlock_requirements,
            class,
        );
        let idxs = class_indices(
            slots,
            include_battle_arenas,
            include_gem_cups,
            vanilla_unlock_requirements,
            class,
        );
        assert forall|t: int| 0 <= t < prefix.len() implies slots.drop_last()[prefix[t] as int]
            == slots[prefix[t] as int] by {}
        if shuffle_class(
            slots.last(),
            include_battle_arenas,
            include_gem_cups,
            vanilla_unlock_requirements,
        ) == class {
            assert(idxs == prefix.push((slots.len() - 1) as usize));
            assert forall|i: usize|
                (i as int) < slots.len() && shuffle_class(
                    slots[i as int],
                    include_battle_arenas,
                    include_gem_cups,
                    vanilla_unlock_requirements,
                ) == class implies #[trigger] idxs.contains(i) by {
                if (i as int) < slots.len() - 1 {
                    assert(prefix.contains(i));
                    let t = choose|t: int| 0 <= t < prefix.len() && prefix[t] == i;
                    assert(idxs[t] == i);
                } else {
                    assert(idxs[idxs.len() - 1] == i);
                }
            }
            assert(idxs.no_duplicates()) by {
                assert forall|a: int, b: int|
                    0 <= a < b < idxs.len() implies idxs[a] != idxs[b] by {
                    if b < idxs.len() - 1 {
                        assert(prefix[a] != prefix[b]);
                    } else {
                        assert(idxs[a] == prefix[a]);
                        assert((prefix[a] as int) < slots.drop_last().len());
                        assert(idxs[b] == (slots.len() - 1) as usize);
                    }
                }
            }
        } else {
            assert(idxs == prefix);
            assert forall|i: usize|
                (i as int) < slots.len() && shuffle_class(
                    slots[i as int],
                    include_battle_arenas,
                    include_gem_cups,
                    vanilla_unlock_requirements,
                ) == class implies #[trigger] idxs.contains(i) by {
                assert((i as int) != slots.len() - 1);
                assert(prefix.contains(i));
            }
        }
    }
}

} // verus!
