//! Seeded random-walk orientation steps.
//!
//! A `WormPathIterator` produces the turning decisions of the tube's random
//! walk: an unbounded sequence of orientation steps, two uniform draws each
//! (one for yaw, one for pitch). The draws come from rand's `SmallRng`,
//! seeded once at construction, so the whole sequence is a function of the
//! seed alone: the same seed and ranges reproduce the same steps bit for
//! bit. Each draw is surfaced as the raw 32-bit word of the generator; the
//! caller's numeric kernel realizes a word as an angle inside the step's
//! range: with `u = (word >> 8) / 2^24`, a uniform value in `[0, 1)` exact
//! in 32-bit IEEE 754, the angle is `lo + u * (hi - lo)`.

use vstd::prelude::*;

use crate::scalar_bits::AngleRange;
use rand::RngCore;
use rand::SeedableRng;

verus! {

#[verifier::external_type_specification]
#[verifier::external_body]
pub struct ExSmallRng(rand::rngs::SmallRng);

/// The `idx`-th 32-bit word that rand's `SmallRng` yields through
/// `RngCore::next_u32` after being seeded with `seed` through
/// `SeedableRng::seed_from_u64`. The generator is a pure function of its
/// state, so this word is determined by `seed` and `idx` alone.
pub uninterp spec fn rng_word_at(seed: u64, idx: nat) -> u32;

/// One turning decision of the random walk: the raw uniform draw for the
/// yaw rotation about the world-up axis, then the raw uniform draw for the
/// pitch rotation about the yawed local lateral axis. The caller maps each
/// word onto its angle range; the composition order (yaw first, pitch in
/// the yawed frame) is part of the step's meaning.
#[derive(Clone, Copy, PartialEq, Eq, Structural, Debug)]
pub struct OrientationStep {
    pub yaw_draw: u32,
    pub pitch_draw: u32,
}

/// The `k`-th orientation step of the walk seeded with `seed`: the yaw draw
/// is word `2k` of the stream and the pitch draw is word `2k + 1`.
pub open spec fn spec_step_at(seed: u64, k: nat) -> OrientationStep {
    OrientationStep { yaw_draw: rng_word_at(seed, 2 * k), pitch_draw: rng_word_at(seed, 2 * k + 1) }
}

/// The first `k` orientation steps of the walk seeded with `seed`.
pub open spec fn spec_steps(seed: u64, k: nat) -> Seq<OrientationStep> {
    Seq::new(k, |i: int| spec_step_at(seed, i as nat))
}

/// The turning-decision source of one random walk.
///
/// Private-field invariant, maintained by `new` and `draw_word` (the only
/// code that touches the fields): `rng` always equals the state a fresh
/// `SmallRng` seeded with `seed` reaches after `drawn` calls of `next_u32`.
pub struct WormPathIterator {
    rng: rand::rngs::SmallRng,
    yaw_range: AngleRange,
    pitch_range: AngleRange,
    seed: u64,
    drawn: Ghost<nat>,
}

/// Relies on rand's `SeedableRng::seed_from_u64` for `SmallRng`: it is a
/// pure function of the seed, so the returned generator state is the one
/// state that `rng_word_at(seed, _)` speaks of.
#[verifier::external_body]
fn seed_small_rng(seed: u64) -> rand::rngs::SmallRng {
    rand::rngs::SmallRng::seed_from_u64(seed)
}

impl WormPathIterator {
    /// The seed the generator was constructed with.
    pub closed spec fn spec_seed(self) -> u64 {
        self.seed
    }

    /// How many 32-bit words have been drawn so far.
    pub closed spec fn spec_drawn(self) -> nat {
        self.drawn@
    }

    /// The yaw angle range the walk was configured with.
    pub closed spec fn spec_yaw_range(self) -> AngleRange {
        self.yaw_range
    }

    /// The pitch angle range the walk was configured with.
    pub closed spec fn spec_pitch_range(self) -> AngleRange {
        self.pitch_range
    }

    /// Constructs the walk's turning-decision source, seeded once.
    pub fn new(seed: u64, yaw_range: AngleRange, pitch_range: AngleRange) -> (it: WormPathIterator)
        requires
            yaw_range.spec_nonempty(),
            pitch_range.spec_nonempty(),
        ensures
            it.spec_seed() == seed,
            it.spec_drawn() == 0,
            it.spec_yaw_range() == yaw_range,
            it.spec_pitch_range() == pitch_range,
    {
        WormPathIterator { rng: seed_small_rng(seed), yaw_range, pitch_range, seed, drawn: Ghost(0) }
    }

    /// The seed the generator was constructed with.
    pub fn seed(&self) -> (s: u64)
        ensures
            s == self.spec_seed(),
    {
        self.seed
    }

    /// The yaw angle range the walk was configured with.
    pub fn yaw_range(&self) -> (r: AngleRange)
        ensures
            r == self.spec_yaw_range(),
    {
        self.yaw_range
    }

    /// The pitch angle range the walk was configured with.
    pub fn pitch_range(&self) -> (r: AngleRange)
        ensures
            r == self.spec_pitch_range(),
    {
        self.pitch_range
    }

    /// Relies on rand's `RngCore::next_u32` for `SmallRng`: the word
    /// returned and the successor state are pure functions of the generator
    /// state, so the word drawn here is word `drawn` of the stream that
    /// `seed` determines.
    #[verifier::external_body]
    fn draw_word(&mut self) -> (w: u32)
        ensures
            w == rng_word_at(old(self).spec_seed(), old(self).spec_drawn()),
            final(self).spec_seed() == old(self).spec_seed(),
            final(self).spec_drawn() == old(self).spec_drawn() + 1,
            final(self).spec_yaw_range() == old(self).spec_yaw_range(),
            final(self).spec_pitch_range() == old(self).spec_pitch_range(),
    {
        self.rng.next_u32()
    }

    /// Draws the next orientation step: one yaw word, then one pitch word.
    /// The step is a function of the seed and of how many steps came before
    /// it, which is all of the determinism guarantee.
    pub fn next(&mut self) -> (step: OrientationStep)
        requires
            old(self).spec_drawn() % 2 == 0,
        ensures
            step == spec_step_at(old(self).spec_seed(), old(self).spec_drawn() / 2),
            final(self).spec_seed() == old(self).spec_seed(),
            final(self).spec_drawn() == old(self).spec_drawn() + 2,
            final(self).spec_yaw_range() == old(self).spec_yaw_range(),
            final(self).spec_pitch_range() == old(self).spec_pitch_range(),
    {
        let yaw_draw = self.draw_word();
        let pitch_draw = self.draw_word();
        OrientationStep { yaw_draw, pitch_draw }
    }
}

/// Draws the first `k` orientation steps of a fresh walk. The result is
/// pinned to `spec_steps(seed, k)`, a function of the seed alone, so any
/// two identically configured walks agree on it.
pub fn take_steps(seed: u64, yaw_range: AngleRange, pitch_range: AngleRange, k: usize) -> (steps:
    Vec<OrientationStep>)
    requires
        yaw_range.spec_nonempty(),
        pitch_range.spec_nonempty(),
    ensures
        steps@ == spec_steps(seed, k as nat),
{
    let mut it = WormPathIterator::new(seed, yaw_range, pitch_range);
    let mut steps: Vec<OrientationStep> = Vec::new();
    let mut i: usize = 0;
    while i < k
        invariant
            i <= k,
            it.spec_seed() == seed,
            it.spec_drawn() == 2 * i,
            it.spec_yaw_range() == yaw_range,
            it.spec_pitch_range() == pitch_range,
            steps@ == spec_steps(seed, i as nat),
        decreases k - i,
    {
        let step = it.next();
        steps.push(step);
        i = i + 1;
        proof {
            assert(steps@ =~= spec_steps(seed, i as nat));
        }
    }
    steps
}

/// Determinism of the path generator: two walks constructed with the same
/// seed produce, for every `k`, the same sequence of first `k` orientation
/// steps.
pub proof fn lemma_path_determinism(seed: u64, k: nat, a: Seq<OrientationStep>, b: Seq<OrientationStep>)
    requires
        a == spec_steps(seed, k),
        b == spec_steps(seed, k),
    ensures
        a == b,
{
}

} // verus!
