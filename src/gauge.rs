use vstd::prelude::*;

verus! {

/// Half a turn in the gauge's angle unit. An angle of `time / 250` radians,
/// with pi taken as 355/113, is `time * 113` such units.
pub const HALF_TURN: u64 = 88750;

/// The angle unit's full turn.
pub const FULL_TURN: u64 = 177500;

/// Bhaskara's rational approximation of the sine on the first half turn, in
/// thousandths: `16 y (H - y) / (5 H^2 - 4 y (H - y))` for `0 <= y <= H`.
pub open spec fn half_wave(y: int) -> int {
    let h = HALF_TURN as int;
    let q = y * (h - y);
    (16000 * q) / (5 * h * h - 4 * q)
}

/// The gauge angle reached after `time` milliseconds, within one turn.
pub open spec fn angle_of(time: int) -> int {
    ((time % (FULL_TURN as int)) * 113) % (FULL_TURN as int)
}

/// The gauge level, in thousandths, after `time` milliseconds: an
/// approximation of the sine of `time / 250` radians, by Bhaskara's rational
/// formula with pi taken as 355/113, within a few thousandths of the sine.
pub open spec fn wave(time: int) -> int {
    let y = angle_of(time);
    if y < HALF_TURN as int {
        half_wave(y)
    } else {
        -half_wave(y - HALF_TURN as int)
    }
}

proof fn lemma_half_wave_bounds(y: int)
    requires
        0 <= y <= HALF_TURN as int,
    ensures
        0 <= half_wave(y) <= 1000,
{
    let h = HALF_TURN as int;
    let q = y * (h - y);
    assert(0 <= q) by (nonlinear_arith)
        requires
            0 <= y <= h,
            q == y * (h - y),
    ;
    assert(4 * q <= h * h) by (nonlinear_arith)
        requires
            q == y * (h - y),
    ;
    let d = 5 * h * h - 4 * q;
    assert(h * h == 7876562500);
    assert(d > 0);
    assert(16000 * q <= 1000 * d);
    assert(0 <= (16000 * q) / d <= 1000) by (nonlinear_arith)
        requires
            0 <= 16000 * q <= 1000 * d,
            d > 0,
    ;
}

/// The gauge level after `time` milliseconds, in thousandths.
pub fn wave_level(time: u64) -> (r: i32)
    ensures
        r == wave(time as int),
        -1000 <= r <= 1000,
{
    let y: u64 = ((time % FULL_TURN) * 113) % FULL_TURN;
    let neg = y >= HALF_TURN;
    let z: u64 = if neg { y - HALF_TURN } else { y };
    proof {
        lemma_half_wave_bounds(z as int);
        assert(z * (HALF_TURN - z) <= 7876562500) by (nonlinear_arith)
            requires
                0 <= z <= HALF_TURN,
        ;
    }
    let q: u64 = z * (HALF_TURN - z);
    let d: u64 = 5 * HALF_TURN * HALF_TURN - 4 * q;
    let level: u64 = (16000 * q) / d;
    if neg {
        -(level as i32)
    } else {
        level as i32
    }
}

} // verus!
