//! Iteration budgets: the hard ceiling, the user-chosen base cap and the
//! reduced cap of a preview pass.
//!
//! The zoom-dependent term of the effective cap is a logarithm and is
//! computed by the caller; this module owns every integer rule around it.

use vstd::prelude::*;

verus! {

/// No pass ever iterates a point more often than this.
pub const ITERATION_CEILING: u32 = 5000;

/// A preview pass never gets fewer iterations than this.
pub const FAST_FLOOR: u32 = 80;

/// How far one keystroke moves the base cap.
pub const BASE_STEP: u32 = 10;

/// The lowest base cap reachable by stepping down.
pub const BASE_STEP_FLOOR: u32 = 10;

/// `n`, held to the ceiling.
pub open spec fn limited(n: int) -> int {
    if n <= ITERATION_CEILING as int {
        n
    } else {
        ITERATION_CEILING as int
    }
}

/// The base cap that a requested value stands for: the nearest value in
/// `1..=ITERATION_CEILING`.
pub open spec fn clamped_base(requested: int) -> int {
    if requested < 1 {
        1
    } else {
        limited(requested)
    }
}

/// The cap of a preview pass: three quarters of the effective cap, rounded
/// down, but at least `FAST_FLOOR`.
pub open spec fn preview_cap(effective: int) -> int {
    if 3 * effective / 4 >= FAST_FLOOR as int {
        3 * effective / 4
    } else {
        FAST_FLOOR as int
    }
}

/// The base cap one step up: `BASE_STEP` more, held to the ceiling.
pub open spec fn stepped_up(base: int) -> int {
    limited(base + BASE_STEP as int)
}

/// The base cap one step down: `BASE_STEP` less, but at least
/// `BASE_STEP_FLOOR`.
pub open spec fn stepped_down(base: int) -> int {
    if base - BASE_STEP as int >= BASE_STEP_FLOOR as int {
        base - BASE_STEP as int
    } else {
        BASE_STEP_FLOOR as int
    }
}

/// Brings a requested base cap into `1..=ITERATION_CEILING`.
pub fn clamp_base(requested: u32) -> (base: u32)
    ensures
        base as int == clamped_base(requested as int),
        1 <= base <= ITERATION_CEILING,
{
    if requested < 1 {
        1
    } else if requested > ITERATION_CEILING {
        ITERATION_CEILING
    } else {
        requested
    }
}

/// Effective cap of the multiplicative policy, from the base cap already
/// scaled by the zoom factor: the scaled value, held to the ceiling.
pub fn cap_scaled(scaled: u32) -> (effective: u32)
    ensures
        effective as int == limited(scaled as int),
        effective <= ITERATION_CEILING,
{
    if scaled > ITERATION_CEILING {
        ITERATION_CEILING
    } else {
        scaled
    }
}

/// Effective cap of the additive policy: the base cap plus the zoom bonus,
/// held to the ceiling.
pub fn cap_boosted(base: u32, bonus: u32) -> (effective: u32)
    ensures
        effective as int == limited(base + bonus),
        effective <= ITERATION_CEILING,
        base <= ITERATION_CEILING ==> base <= effective,
{
    if base >= ITERATION_CEILING || bonus >= ITERATION_CEILING - base {
        ITERATION_CEILING
    } else {
        base + bonus
    }
}

/// Cap of a preview pass for the given effective cap.
pub fn fast_cap(effective: u32) -> (cap: u32)
    ensures
        cap as int == preview_cap(effective as int),
        cap >= FAST_FLOOR,
{
    let quarters: u32 = effective / 4 * 3 + effective % 4 * 3 / 4;
    if quarters >= FAST_FLOOR {
        quarters
    } else {
        FAST_FLOOR
    }
}

/// The base cap after one step up.
pub fn raise_base(base: u32) -> (raised: u32)
    ensures
        raised as int == stepped_up(base as int),
        raised <= ITERATION_CEILING,
{
    cap_boosted(base, BASE_STEP)
}

/// The base cap after one step down.
pub fn lower_base(base: u32) -> (lowered: u32)
    ensures
        lowered as int == stepped_down(base as int),
        lowered >= BASE_STEP_FLOOR,
{
    if base >= BASE_STEP_FLOOR + BASE_STEP {
        base - BASE_STEP
    } else {
        BASE_STEP_FLOOR
    }
}

/// The effective cap never exceeds the ceiling, never falls below a term
/// that is itself within the ceiling, and does not decrease when the
/// zoom-dependent term grows.
pub proof fn lemma_limited(smaller: int, larger: int)
    requires
        smaller <= larger,
    ensures
        limited(smaller) <= limited(larger),
        limited(larger) <= ITERATION_CEILING,
        smaller <= ITERATION_CEILING ==> smaller <= limited(larger),
{
}

/// The preview cap does not decrease when the effective cap grows, and
/// from an effective cap of `FAST_FLOOR` on it does not exceed the
/// effective cap.
pub proof fn lemma_preview_cap(smaller: int, larger: int)
    requires
        0 <= smaller <= larger,
    ensures
        preview_cap(smaller) <= preview_cap(larger),
        smaller >= FAST_FLOOR ==> preview_cap(smaller) <= smaller,
{
}

} // verus!
