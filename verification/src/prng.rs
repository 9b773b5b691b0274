//! The seeded random stream driving every randomized decision. The stream
//! cipher's words are a pure function of the 32-bit seed and the word
//! position, so a generation is a deterministic function of its seed: the
//! generator state is just the seed and a cursor into the stream.

use vstd::prelude::*;

use rand::{Rng, SeedableRng};
use rand_chacha::ChaCha8Rng;

verus! {

/// The 32-bit word at position `pos` of the stream derived from `seed`.
pub uninterp spec fn chacha_word(seed: u32, pos: u64) -> u32;

/// Relies on rand_chacha::ChaCha8Rng: seeded through `seed_from_u64` and
/// positioned with `set_word_pos`, the next 32-bit word is a pure function
/// of the seed and the word position.
#[verifier::external_body]
fn chacha_word_at(seed: u32, pos: u64) -> (r: u32)
    ensures
        r == chacha_word(seed, pos),
{
    let mut rng = ChaCha8Rng::seed_from_u64(seed as u64);
    rng.set_word_pos(pos as u128);
    rng.next_u32()
}

/// The cursor after one draw: the next position, wrapping at the end of the
/// 64-bit counter this generator uses (the cipher's own position space is
/// wider, so no draw within the counter's range ever repeats a word).
pub open spec fn step_pos(pos: u64) -> u64 {
    if pos == u64::MAX {
        0
    } else {
        (pos + 1) as u64
    }
}

/// The cursor after `n` draws.
pub open spec fn step_pos_n(pos: u64, n: nat) -> u64
    decreases n,
{
    if n == 0 {
        pos
    } else {
        step_pos_n(step_pos(pos), (n - 1) as nat)
    }
}

/// The backwards swap pass over the word stream: with `k` positions still
/// unfixed, the word at the cursor picks a partner below `k` for position
/// `k - 1`, and the pass recurses on the next word.
pub open spec fn spec_shuffle<T>(s: Seq<T>, seed: u32, pos: u64, k: int) -> Seq<T>
    decreases k,
{
    if k < 2 || k > s.len() {
        s
    } else {
        let j = (chacha_word(seed, pos) % (k as u32)) as int;
        let s2 = s.update(k - 1, s[j]).update(j, s[k - 1]);
        spec_shuffle(s2, seed, step_pos(pos), k - 1)
    }
}

/// The deterministic random generator of one seed generation: a seed and a
/// cursor into its word stream.
#[derive(Clone, Copy, Debug, PartialEq, Eq, Structural)]
pub struct GameRng {
    pub seed: u32,
    pub pos: u64,
}

impl GameRng {
    /// A fresh stream for `seed`, positioned at its first word.
    pub fn new(seed: u32) -> (r: Self)
        ensures
            r.seed == seed,
            r.pos == 0,
    {
        GameRng { seed, pos: 0 }
    }

    /// Draws the next 32-bit word of the stream.
    pub fn next_u32(&mut self) -> (r: u32)
        ensures
            r == chacha_word(old(self).seed, old(self).pos),
            final(self).seed == old(self).seed,
            final(self).pos == step_pos(old(self).pos),
    {
        let r = chacha_word_at(self.seed, self.pos);
        if self.pos == u64::MAX {
            self.pos = 0;
        } else {
            self.pos = self.pos + 1;
        }
        r
    }

    /// Draws a value below `n`.
    pub fn next_below(&mut self, n: u32) -> (r: u32)
        requires
            n > 0,
        ensures
            r < n,
            r == chacha_word(old(self).seed, old(self).pos) % n,
            final(self).seed == old(self).seed,
            final(self).pos == step_pos(old(self).pos),
    {
        let w = self.next_u32();
        w % n
    }

    /// Draws an index into a collection of `len` elements.
    pub fn choose_index(&mut self, len: usize) -> (r: usize)
        requires
            0 < len <= u32::MAX,
        ensures
            r < len,
            r == (chacha_word(old(self).seed, old(self).pos) % (len as u32)) as usize,
            final(self).seed == old(self).seed,
            final(self).pos == step_pos(old(self).pos),
    {
        let r = self.next_below(len as u32);
        r as usize
    }

    /// Shuffles the vector in place with a backwards swap pass, pinned to
    /// the word stream: the result is [`spec_shuffle`] of the input at the
    /// starting cursor, the cursor advances one word per swap, and the
    /// result holds exactly the elements of the input, reordered.
    pub fn shuffle<T: Copy>(&mut self, v: &mut Vec<T>)
        requires
            old(v)@.len() <= u32::MAX,
        ensures
            final(v)@ == spec_shuffle(
                old(v)@,
                old(self).seed,
                old(self).pos,
                old(v)@.len() as int,
            ),
            final(self).pos == (if old(v)@.len() < 2 {
                old(self).pos
            } else {
                step_pos_n(old(self).pos, (old(v)@.len() - 1) as nat)
            }),
            final(v)@.len() == old(v)@.len(),
            final(v)@.to_multiset() == old(v)@.to_multiset(),
            final(self).seed == old(self).seed,
    {
        if v.len() < 2 {
            return ;
        }
        let mut k: usize = v.len();
        while k >= 2
            invariant
                2 <= k <= v@.len() || k == 1,
                v@.len() == old(v)@.len(),
                v@.len() <= u32::MAX,
                v@.to_multiset() == old(v)@.to_multiset(),
                self.seed == old(self).seed,
                spec_shuffle(old(v)@, old(self).seed, old(self).pos, old(v)@.len() as int)
                    == spec_shuffle(v@, self.seed, self.pos, k as int),
                step_pos_n(old(self).pos, (old(v)@.len() - 1) as nat) == step_pos_n(
                    self.pos,
                    (k - 1) as nat,
                ),
            decreases k,
        {
            let i = k - 1;
            let j = self.choose_index(i + 1);
            let ghost prev = v@;
            swap_elems(v, i, j);
            proof {
                lemma_swap_multiset(prev, v@, i as int, j as int);
            }
            k = k - 1;
        }
    }
}

/// Exchanges the elements at `i` and `j`.
fn swap_elems<T: Copy>(v: &mut Vec<T>, i: usize, j: usize)
    requires
        i < old(v)@.len(),
        j < old(v)@.len(),
    ensures
        final(v)@ == old(v)@.update(i as int, old(v)@[j as int]).update(
            j as int,
            old(v)@[i as int],
        ),
{
    let a = v[i];
    let b = v[j];
    v[i] = b;
    v[j] = a;
}

/// Swapping two elements of a sequence keeps the multiset of its elements.
pub proof fn lemma_swap_multiset<T>(orig: Seq<T>, cur: Seq<T>, i: int, j: int)
    requires
        0 <= i < orig.len(),
        0 <= j < orig.len(),
        cur == orig.update(i, orig[j]).update(j, orig[i]),
    ensures
        cur.to_multiset() == orig.to_multiset(),
{
    broadcast use vstd::seq_lib::group_to_multiset_ensures;
    broadcast use vstd::seq_lib::to_multiset_update;

    let mid = orig.update(i, orig[j]);
    assert(cur == mid.update(j, orig[i]));
    if i == j {
        assert(cur =~= orig);
    } else {
        assert(orig.contains(orig[i]));
        assert(orig.contains(orig[j]));
        assert(mid[j] == orig[j]);
        assert(mid.to_multiset() == orig.to_multiset().insert(orig[j]).remove(orig[i]));
        assert(cur.to_multiset() == mid.to_multiset().insert(orig[i]).remove(mid[j]));
        assert(cur.to_multiset() =~= orig.to_multiset());
    }
}

} // verus!
