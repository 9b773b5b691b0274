//! The fixed-offset binary table the results are serialized into: each
//! `(category-prefixed key, 16-bit value)` pair becomes one 6-byte record
//! with the endian swap the patched image expects, framed by fixed marker
//! bytes; records are keyed uniquely (a later pair for the same key wins)
//! and sorted ascending by key.

use vstd::prelude::*;

use crate::data::{LevelID, RaceReward, RaceType, RequiredItem, SettingID, UnlockStage,
    UnlockRequirementItem};
use crate::randomize::GameSetup;
use crate::settings::SettingValue;
use crate::world::GameWorld;

verus! {

/// The key-value pairs of one generation, in generation order: the warp-pad
/// links, the race rewards, the unlock requirements of both stages, and the
/// settings, each under its category prefix.
pub open spec fn spec_db_pairs(setup: GameSetup) -> Seq<(u32, u16)> {
    setup.game_world.spec_links().map_values(
        |e: (LevelID, LevelID)| (((0xA000u32 | e.0.spec_num()) as u32) << 16, e.1.spec_num() as u16),
    ) + setup.race_rewards@.map_values(
        |e: (LevelID, RaceType, RaceReward)|
            (
                ((((0xA100u32 | e.0.spec_num()) as u32) << 16) | (e.1.spec_num() as u32)) as u32,
                e.2.spec_num(),
            ),
    ) + GameWorld::unlocks_of(setup.game_world.spec_pads()).map_values(
        |e: ((LevelID, UnlockStage), Option<UnlockRequirementItem>)|
            (
                (((if e.0.1 == UnlockStage::Two {
                    0xA300u32
                } else {
                    0xA200u32
                } | e.0.0.spec_num()) as u32) << 16) as u32,
                unlock_value(e.1),
            ),
    ) + setup.settings@.map_values(
        |e: (SettingID, SettingValue)|
            ((((0xAF00u32 | e.0.spec_num()) as u32) << 16) as u32, e.1.spec_num()),
    )
}

/// The 16-bit value of one unlock entry: the item identifier with the count
/// packed into the top five bits; an absent requirement encodes as an open
/// trophy gate.
pub open spec fn unlock_value(req: Option<UnlockRequirementItem>) -> u16 {
    match req {
        Some(r) => (r.item_type.spec_num() | (((r.count as u16) & 0x1F) << 11)) as u16,
        None => RequiredItem::Trophy.spec_num(),
    }
}

/// The pairs with a later duplicate key replacing the earlier entry.
pub open spec fn upsert(s: Seq<(u32, u16)>, k: u32, v: u16) -> Seq<(u32, u16)>
    decreases s.len(),
{
    if s.len() == 0 {
        seq![(k, v)]
    } else if s[0].0 == k {
        seq![(k, v)] + s.drop_first()
    } else {
        seq![s[0]] + upsert(s.drop_first(), k, v)
    }
}

/// All pairs folded into a unique-key table, later pairs winning.
pub open spec fn upsert_all(acc: Seq<(u32, u16)>, pairs: Seq<(u32, u16)>) -> Seq<(u32, u16)>
    decreases pairs.len(),
{
    if pairs.len() == 0 {
        acc
    } else {
        upsert_all(upsert(acc, pairs[0].0, pairs[0].1), pairs.drop_first())
    }
}

/// One pair placed into a key-sorted table.
pub open spec fn insert_sorted(s: Seq<(u32, u16)>, p: (u32, u16)) -> Seq<(u32, u16)>
    decreases s.len(),
{
    if s.len() == 0 {
        seq![p]
    } else if p.0 >= s[0].0 {
        seq![s[0]] + insert_sorted(s.drop_first(), p)
    } else {
        seq![p] + s
    }
}

/// A whole table sorted ascending by key via repeated insertion.
pub open spec fn sort_pairs(acc: Seq<(u32, u16)>, pairs: Seq<(u32, u16)>) -> Seq<(u32, u16)>
    decreases pairs.len(),
{
    if pairs.len() == 0 {
        acc
    } else {
        sort_pairs(insert_sorted(acc, pairs[0]), pairs.drop_first())
    }
}

/// The canonical table: unique keys, later pairs winning, sorted ascending.
pub open spec fn canon_pairs(pairs: Seq<(u32, u16)>) -> Seq<(u32, u16)> {
    sort_pairs(Seq::empty(), upsert_all(Seq::empty(), pairs))
}

/// The six bytes of one record: the key's upper half and lower half, then
/// the value, each 16-bit word with its bytes swapped for the patched
/// image's endianness.
pub open spec fn record_bytes(p: (u32, u16)) -> Seq<u8> {
    seq![
        ((p.0 >> 16) & 0xFF) as u8,
        ((p.0 >> 24) & 0xFF) as u8,
        (p.0 & 0xFF) as u8,
        ((p.0 >> 8) & 0xFF) as u8,
        (p.1 & 0xFF) as u8,
        ((p.1 >> 8) & 0xFF) as u8,
    ]
}

/// The records of a table, concatenated.
pub open spec fn records_bytes(pairs: Seq<(u32, u16)>) -> Seq<u8>
    decreases pairs.len(),
{
    if pairs.len() == 0 {
        Seq::empty()
    } else {
        records_bytes(pairs.drop_last()) + record_bytes(pairs.last())
    }
}

/// The leading marker the client scans for.
pub open spec fn header_bytes() -> Seq<u8> {
    seq![0xDBu8, 0xDAu8, 0x00u8, 0x0Du8, 0xDBu8, 0xDAu8]
}

/// The trailing marker and end-of-list terminator.
pub open spec fn footer_bytes() -> Seq<u8> {
    seq![0xDBu8, 0xDAu8, 0xAAu8, 0x0Du8, 0xDBu8, 0xDAu8, 0xFFu8, 0xFFu8]
}

/// The whole serialized table of one generation.
pub open spec fn spec_database(setup: GameSetup) -> Seq<u8> {
    header_bytes() + records_bytes(canon_pairs(spec_db_pairs(setup))) + footer_bytes()
}

/// Replacing by the first matching key equals the upsert fold step.
proof fn lemma_upsert_update(s: Seq<(u32, u16)>, i: int, k: u32, v: u16)
    requires
        0 <= i < s.len(),
        s[i].0 == k,
        forall|j: int| 0 <= j < i ==> (#[trigger] s[j]).0 != k,
    ensures
        upsert(s, k, v) == s.update(i, (k, v)),
    decreases s.len(),
{
    if i == 0 {
        assert(upsert(s, k, v) =~= s.update(0, (k, v)));
    } else {
        lemma_upsert_update(s.drop_first(), i - 1, k, v);
        assert(s.drop_first()[i - 1] == s[i]);
        assert(upsert(s, k, v) =~= s.update(i, (k, v)));
    }
}

/// Appending a fresh key equals the upsert fold step.
proof fn lemma_upsert_push(s: Seq<(u32, u16)>, k: u32, v: u16)
    requires
        forall|j: int| 0 <= j < s.len() ==> (#[trigger] s[j]).0 != k,
    ensures
        upsert(s, k, v) == s.push((k, v)),
    decreases s.len(),
{
    if s.len() == 0 {
        assert(upsert(s, k, v) =~= s.push((k, v)));
    } else {
        lemma_upsert_push(s.drop_first(), k, v);
        assert(upsert(s, k, v) =~= s.push((k, v)));
    }
}

/// Inserting before the first larger key equals the insertion fold step.
proof fn lemma_insert_sorted_at(s: Seq<(u32, u16)>, i: int, p: (u32, u16))
    requires
        0 <= i <= s.len(),
        forall|j: int| 0 <= j < i ==> p.0 >= (#[trigger] s[j]).0,
        i < s.len() ==> p.0 < s[i].0,
    ensures
        insert_sorted(s, p) == s.insert(i, p),
    decreases s.len(),
{
    if s.len() == 0 {
        assert(insert_sorted(s, p) =~= s.insert(0, p));
    } else if i == 0 {
        assert(insert_sorted(s, p) =~= s.insert(0, p));
    } else {
        lemma_insert_sorted_at(s.drop_first(), i - 1, p);
        assert(insert_sorted(s, p) =~= s.insert(i, p));
    }
}

/// Applies one upsert in place; see [`upsert`].
fn upsert_exec(table: &mut Vec<(u32, u16)>, k: u32, v: u16)
    ensures
        final(table)@ == upsert(old(table)@, k, v),
{
    let mut i: usize = 0;
    while i < table.len()
        invariant
            0 <= i <= table@.len(),
            table@ == old(table)@,
            forall|j: int| 0 <= j < i ==> (#[trigger] table@[j]).0 != k,
        decreases table@.len() - i,
    {
        if table[i].0 == k {
            proof {
                lemma_upsert_update(table@, i as int, k, v);
            }
            table[i] = (k, v);
            return ;
        }
        i = i + 1;
    }
    proof {
        lemma_upsert_push(table@, k, v);
    }
    table.push((k, v));
}

/// Inserts one pair at its sorted position; see [`insert_sorted`].
fn insert_sorted_exec(out: &mut Vec<(u32, u16)>, p: (u32, u16))
    ensures
        final(out)@ == insert_sorted(old(out)@, p),
{
    let mut i: usize = 0;
    while i < out.len()
        invariant
            0 <= i <= out@.len(),
            out@ == old(out)@,
            forall|j: int| 0 <= j < i ==> p.0 >= (#[trigger] out@[j]).0,
        decreases out@.len() - i,
    {
        if p.0 < out[i].0 {
            proof {
                lemma_insert_sorted_at(out@, i as int, p);
            }
            out.insert(i, p);
            return ;
        }
        i = i + 1;
    }
    proof {
        lemma_insert_sorted_at(out@, out@.len() as int, p);
    }
    let n = out.len();
    out.insert(n, p);
}

/// Appends one record's six bytes; see [`record_bytes`].
fn push_record(out: &mut Vec<u8>, p: (u32, u16))
    ensures
        final(out)@ == old(out)@ + record_bytes(p),
{
    out.push(((p.0 >> 16) & 0xFF) as u8);
    out.push(((p.0 >> 24) & 0xFF) as u8);
    out.push((p.0 & 0xFF) as u8);
    out.push(((p.0 >> 8) & 0xFF) as u8);
    out.push((p.1 & 0xFF) as u8);
    out.push(((p.1 >> 8) & 0xFF) as u8);
    proof {
        assert(out@ =~= old(out)@ + record_bytes(p));
    }
}

/// Serializes one generation into the fixed binary table: every link,
/// reward, unlock and setting as a 6-byte record under its category prefix,
/// records keyed uniquely and sorted ascending, framed by the fixed markers.
#[verifier::rlimit(100)]
pub fn get_database_vec(randomized_game: &GameSetup) -> (r: Vec<u8>)
    ensures
        r@ == spec_database(*randomized_game),
{
    // Collect the logical pairs in generation order.
    let mut pairs: Vec<(u32, u16)> = Vec::new();
    let links = randomized_game.game_world.get_warppad_links();
    let mut i: usize = 0;
    while i < links.len()
        invariant
            0 <= i <= links@.len(),
            links@ == randomized_game.game_world.spec_links(),
            pairs@ =~= links@.take(i as int).map_values(
                |e: (LevelID, LevelID)|
                    (((0xA000u32 | e.0.spec_num()) as u32) << 16, e.1.spec_num() as u16),
            ),
        decreases links@.len() - i,
    {
        let (k, v) = links[i];
        pairs.push(((0xA000u32 | k.num()) << 16, v.num() as u16));
        proof {
            assert(pairs@ =~= links@.take(i + 1).map_values(
                |e: (LevelID, LevelID)|
                    (((0xA000u32 | e.0.spec_num()) as u32) << 16, e.1.spec_num() as u16),
            ));
        }
        i = i + 1;
    }
    let ghost part1 = pairs@;

    let mut j: usize = 0;
    while j < randomized_game.race_rewards.len()
        invariant
            0 <= j <= randomized_game.race_rewards@.len(),
            pairs@ =~= part1 + randomized_game.race_rewards@.take(j as int).map_values(
                |e: (LevelID, RaceType, RaceReward)|
                    (
                        ((((0xA100u32 | e.0.spec_num()) as u32) << 16) | (
                        e.1.spec_num() as u32)) as u32,
                        e.2.spec_num(),
                    ),
            ),
        decreases randomized_game.race_rewards@.len() - j,
    {
        let (level, racetype, reward) = randomized_game.race_rewards[j];
        pairs.push(((((0xA100u32 | level.num()) << 16) | (racetype.num() as u32)), reward.num()));
        proof {
            assert(pairs@ =~= part1 + randomized_game.race_rewards@.take(j + 1).map_values(
                |e: (LevelID, RaceType, RaceReward)|
                    (
                        ((((0xA100u32 | e.0.spec_num()) as u32) << 16) | (
                        e.1.spec_num() as u32)) as u32,
                        e.2.spec_num(),
                    ),
            ));
        }
        j = j + 1;
    }
    let ghost part2 = pairs@;

    let unlocks = randomized_game.game_world.get_warppad_unlocks();
    let mut u: usize = 0;
    while u < unlocks.len()
        invariant
            0 <= u <= unlocks@.len(),
            unlocks@ == GameWorld::unlocks_of(randomized_game.game_world.spec_pads()),
            pairs@ =~= part2 + unlocks@.take(u as int).map_values(
                |e: ((LevelID, UnlockStage), Option<UnlockRequirementItem>)|
                    (
                        (((if e.0.1 == UnlockStage::Two {
                            0xA300u32
                        } else {
                            0xA200u32
                        } | e.0.0.spec_num()) as u32) << 16) as u32,
                        unlock_value(e.1),
                    ),
            ),
        decreases unlocks@.len() - u,
    {
        let ((level, stage), req) = unlocks[u];
        let prefix: u32 = if stage == UnlockStage::Two {
            0xA300
        } else {
            0xA200
        };
        let value: u16 = match req {
            Some(rq) => rq.item_type.num() | (((rq.count as u16) & 0x1F) << 11),
            None => RequiredItem::Trophy.num(),
        };
        pairs.push(((prefix | level.num()) << 16, value));
        proof {
            assert(pairs@ =~= part2 + unlocks@.take(u + 1).map_values(
                |e: ((LevelID, UnlockStage), Option<UnlockRequirementItem>)|
                    (
                        (((if e.0.1 == UnlockStage::Two {
                            0xA300u32
                        } else {
                            0xA200u32
                        } | e.0.0.spec_num()) as u32) << 16) as u32,
                        unlock_value(e.1),
                    ),
            ));
        }
        u = u + 1;
    }
    let ghost part3 = pairs@;

    let mut s: usize = 0;
    while s < randomized_game.settings.len()
        invariant
            0 <= s <= randomized_game.settings@.len(),
            pairs@ =~= part3 + randomized_game.settings@.take(s as int).map_values(
                |e: (SettingID, SettingValue)|
                    ((((0xAF00u32 | e.0.spec_num()) as u32) << 16) as u32, e.1.spec_num()),
            ),
        decreases randomized_game.settings@.len() - s,
    {
        let (sid, sval) = randomized_game.settings[s];
        pairs.push(((0xAF00u32 | sid.num()) << 16, sval.num()));
        proof {
            assert(pairs@ =~= part3 + randomized_game.settings@.take(s + 1).map_values(
                |e: (SettingID, SettingValue)|
                    ((((0xAF00u32 | e.0.spec_num()) as u32) << 16) as u32, e.1.spec_num()),
            ));
        }
        s = s + 1;
    }
    proof {
        assert(pairs@ =~= spec_db_pairs(*randomized_game));
    }

    // Fold into a unique-key table, later pairs winning.
    let mut table: Vec<(u32, u16)> = Vec::new();
    let mut t: usize = 0;
    proof {
        assert(pairs@.skip(0) =~= pairs@);
    }
    while t < pairs.len()
        invariant
            0 <= t <= pairs@.len(),
            upsert_all(Seq::empty(), pairs@) == upsert_all(table@, pairs@.skip(t as int)),
        decreases pairs@.len() - t,
    {
        proof {
            assert(pairs@.skip(t as int).drop_first() =~= pairs@.skip(t + 1));
            assert(pairs@.skip(t as int)[0] == pairs@[t as int]);
        }
        let (k, v) = pairs[t];
        upsert_exec(&mut table, k, v);
        t = t + 1;
    }
    proof {
        assert(pairs@.skip(pairs@.len() as int) =~= Seq::<(u32, u16)>::empty());
    }

    // Sort ascending by key.
    let mut sorted: Vec<(u32, u16)> = Vec::new();
    let mut q: usize = 0;
    proof {
        assert(table@.skip(0) =~= table@);
    }
    while q < table.len()
        invariant
            0 <= q <= table@.len(),
            sort_pairs(Seq::empty(), table@) == sort_pairs(sorted@, table@.skip(q as int)),
        decreases table@.len() - q,
    {
        proof {
            assert(table@.skip(q as int).drop_first() =~= table@.skip(q + 1));
            assert(table@.skip(q as int)[0] == table@[q as int]);
        }
        let p = table[q];
        insert_sorted_exec(&mut sorted, p);
        q = q + 1;
    }
    proof {
        assert(table@.skip(table@.len() as int) =~= Seq::<(u32, u16)>::empty());
        assert(sorted@ == canon_pairs(spec_db_pairs(*randomized_game)));
    }

    // Emit the framed byte stream.
    let mut out: Vec<u8> = Vec::new();
    out.push(0xDB);
    out.push(0xDA);
    out.push(0x00);
    out.push(0x0D);
    out.push(0xDB);
    out.push(0xDA);
    proof {
        assert(out@ =~= header_bytes());
    }
    let ghost head = out@;
    let mut b: usize = 0;
    while b < sorted.len()
        invariant
            0 <= b <= sorted@.len(),
            out@ == head + records_bytes(sorted@.take(b as int)),
            head == header_bytes(),
        decreases sorted@.len() - b,
    {
        push_record(&mut out, sorted[b]);
        proof {
            assert(sorted@.take(b + 1).drop_last() =~= sorted@.take(b as int));
            assert(sorted@.take(b + 1).last() == sorted@[b as int]);
            assert(out@ =~= head + records_bytes(sorted@.take(b + 1)));
        }
        b = b + 1;
    }
    proof {
        assert(sorted@.take(sorted@.len() as int) =~= sorted@);
    }
    out.push(0xDB);
    out.push(0xDA);
    out.push(0xAA);
    out.push(0x0D);
    out.push(0xDB);
    out.push(0xDA);
    out.push(0xFF);
    out.push(0xFF);
    proof {
        assert(out@ =~= spec_database(*randomized_game));
    }
    out
}

} // verus!
