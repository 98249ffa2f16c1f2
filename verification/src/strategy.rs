//! The three mean-computation strategies, the capability-checked selector
//! that dispatches among them, and the group decomposition that the
//! vectorized and chunked strategies share: full groups of `GROUP_WIDTH`
//! consecutive elements, then a scalar remainder shorter than one group.

use vstd::prelude::*;
use vstd::arithmetic::div_mod::lemma_fundamental_div_mod;

verus! {

/// How many consecutive elements one accumulation group holds (the lanes of
/// one wide register of 32-bit values).
pub const GROUP_WIDTH: usize = 8;

/// How many discarded invocations of every strategy precede the timed one.
pub const WARMUP_RUNS: usize = 3;

/// One way of computing the arithmetic mean of a buffer.
#[derive(Clone, Copy, Debug, PartialEq, Eq, Structural)]
pub enum MeanStrategy {
    /// Sequential left-to-right summation; the reference strategy.
    Scalar,
    /// Group-wise accumulation in a wide hardware register.
    WideVector,
    /// Group-wise accumulation in plain code, left to the compiler's
    /// auto-vectorizer.
    Chunked,
}

/// Which strategy a request for wide-vector accumulation resolves to:
/// the wide path only where the architecture exposes it and the running CPU
/// reports the feature; the scalar fallback where the CPU lacks the feature;
/// the chunked fallback on architectures without the wide path at all.
pub open spec fn spec_select_strategy(wide_arch: bool, wide_feature: bool) -> MeanStrategy {
    if !wide_arch {
        MeanStrategy::Chunked
    } else if wide_feature {
        MeanStrategy::WideVector
    } else {
        MeanStrategy::Scalar
    }
}

/// Resolves a request for wide-vector accumulation against the platform:
/// `wide_arch` says whether this architecture has the wide path compiled in,
/// `wide_feature` whether the running CPU reports the required feature.
/// The fallback is transparent, never an error.
pub fn select_strategy(wide_arch: bool, wide_feature: bool) -> (s: MeanStrategy)
    ensures
        s == spec_select_strategy(wide_arch, wide_feature),
{
    if !wide_arch {
        MeanStrategy::Chunked
    } else if wide_feature {
        MeanStrategy::WideVector
    } else {
        MeanStrategy::Scalar
    }
}

/// Without the hardware feature the selector never dispatches to the wide
/// path: it degrades to the scalar or chunked strategy.
pub proof fn lemma_no_wide_without_feature(wide_arch: bool, wide_feature: bool)
    requires
        !wide_feature,
    ensures
        spec_select_strategy(wide_arch, wide_feature) != MeanStrategy::WideVector,
{
}

/// How many full groups a buffer of `len` elements yields.
pub open spec fn spec_full_groups(len: int) -> int {
    len / (GROUP_WIDTH as int)
}

/// How many trailing elements are left to the scalar remainder path.
pub open spec fn spec_remainder_len(len: int) -> int {
    len % (GROUP_WIDTH as int)
}

/// Splits a buffer length into its full-group count and its remainder
/// length. The groups and the remainder together cover the buffer exactly.
pub fn group_split(len: usize) -> (r: (usize, usize))
    ensures
        r.0 as int == spec_full_groups(len as int),
        r.1 as int == spec_remainder_len(len as int),
        (GROUP_WIDTH as int) * (r.0 as int) + (r.1 as int) == len as int,
        r.1 < GROUP_WIDTH,
{
    (len / GROUP_WIDTH, len % GROUP_WIDTH)
}

/// A buffer shorter than one full group yields no group at all: the group
/// path of the vectorized and chunked strategies reads nothing, and every
/// element goes through the scalar remainder path.
pub proof fn lemma_short_buffer_all_remainder(len: int)
    requires
        0 <= len < GROUP_WIDTH as int,
    ensures
        spec_full_groups(len) == 0,
        spec_remainder_len(len) == len,
{
}

/// A buffer whose length is an exact multiple of the group width leaves no
/// remainder: the groups alone cover the buffer exactly, so the remainder
/// path reads nothing and no element is counted twice.
pub proof fn lemma_exact_multiple_no_remainder(len: int)
    requires
        0 <= len,
        len % (GROUP_WIDTH as int) == 0,
    ensures
        spec_remainder_len(len) == 0,
        (GROUP_WIDTH as int) * spec_full_groups(len) == len,
{
    lemma_fundamental_div_mod(len, GROUP_WIDTH as int);
}

/// The input sizes of the multi-size sweep, smallest first.
pub fn sweep_sizes() -> (v: Vec<usize>)
    ensures
        v@ =~= seq![500usize, 1000usize, 50000usize, 1000000usize, 100000000usize],
{
    let mut v: Vec<usize> = Vec::new();
    v.push(500);
    v.push(1000);
    v.push(50000);
    v.push(1000000);
    v.push(100000000);
    v
}

} // verus!
