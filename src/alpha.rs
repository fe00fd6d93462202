use vstd::arithmetic::div_mod::lemma_div_is_ordered;
use vstd::arithmetic::mul::lemma_mul_inequality;
use vstd::prelude::*;

verus! {

/// Opacity of the dim layer as a level of the full `u32` range: `0` is fully
/// transparent and `u32::MAX` fully opaque, so the level stands for the
/// fraction `level / u32::MAX`.
#[derive(Clone, Copy, Debug, PartialEq, Eq, Structural)]
pub struct Alpha {
    pub level: u32,
}

/// `floor(alpha * max)` for the opacity `level / u32::MAX`.
pub open spec fn scaled(level: int, max: int) -> int {
    level * max / (u32::MAX as int)
}

/// The opacity reached `elapsed` milliseconds into a fade of `fade`
/// milliseconds towards `target`: linear, clamped at `target`, and already
/// complete when the fade has no length.
pub open spec fn fade_level(target: int, elapsed: int, fade: int) -> int {
    if fade <= 0 || elapsed >= fade {
        target
    } else {
        target * elapsed / fade
    }
}

impl Alpha {
    pub fn from_level(level: u32) -> (r: Alpha)
        ensures
            r.level == level,
    {
        Alpha { level }
    }

    pub fn transparent() -> (r: Alpha)
        ensures
            r.level == 0,
    {
        Alpha { level: 0 }
    }

    pub fn opaque() -> (r: Alpha)
        ensures
            r.level == u32::MAX,
    {
        Alpha { level: u32::MAX }
    }

    pub fn is_opaque(&self) -> (r: bool)
        ensures
            r == (self.level == u32::MAX),
    {
        self.level == u32::MAX
    }

    /// The opacity as an 8-bit channel value, truncated.
    pub fn to_byte(&self) -> (r: u8)
        ensures
            r == scaled(self.level as int, 255),
    {
        let l = self.level as u64;
        proof {
            lemma_scaled_bounded(l as int, 255);
        }
        (l * 255 / (u32::MAX as u64)) as u8
    }
}

/// The opacity of a linear fade towards `target`, `elapsed_ms` into a fade of
/// `fade_ms` milliseconds.
pub fn fade_alpha(target: Alpha, elapsed_ms: u64, fade_ms: u64) -> (r: Alpha)
    ensures
        r.level == fade_level(target.level as int, elapsed_ms as int, fade_ms as int),
{
    if fade_ms == 0 || elapsed_ms >= fade_ms {
        target
    } else {
        let t = target.level as u128;
        let e = elapsed_ms as u128;
        let f = fade_ms as u128;
        proof {
            lemma_fade_bounded(t as int, e as int, f as int);
            assert(t * e <= u32::MAX * u64::MAX) by (nonlinear_arith)
                requires
                    t <= u32::MAX,
                    e <= u64::MAX,
            ;
        }
        Alpha { level: (t * e / f) as u32 }
    }
}

/// Scaling keeps a level within `0 ..= max`.
pub proof fn lemma_scaled_bounded(level: int, max: int)
    requires
        0 <= level <= u32::MAX,
        0 <= max,
    ensures
        0 <= scaled(level, max) <= max,
{
    let m = u32::MAX as int;
    lemma_mul_inequality(level, m, max);
    assert(level * max >= 0) by (nonlinear_arith)
        requires
            level >= 0,
            max >= 0,
    ;
    lemma_div_is_ordered(level * max, m * max, m);
    assert(m * max / m == max) by (nonlinear_arith)
        requires
            m > 0,
    ;
}

/// A fade step lies between `0` and the target.
pub proof fn lemma_fade_bounded(target: int, elapsed: int, fade: int)
    requires
        0 <= target,
        0 <= elapsed,
    ensures
        0 <= fade_level(target, elapsed, fade) <= target,
{
    if !(fade <= 0 || elapsed >= fade) {
        lemma_mul_inequality(elapsed, fade, target);
        assert(target * elapsed >= 0) by (nonlinear_arith)
            requires
                target >= 0,
                elapsed >= 0,
        ;
        lemma_div_is_ordered(target * elapsed, target * fade, fade);
        assert(target * fade / fade == target) by (nonlinear_arith)
            requires
                fade > 0,
        ;
    }
}

/// Along a fade, later moments never give a lower opacity, and none exceeds
/// the target.
pub proof fn lemma_fade_monotone(target: Alpha, elapsed1: u64, elapsed2: u64, fade_ms: u64)
    requires
        elapsed1 <= elapsed2,
    ensures
        0 <= fade_level(target.level as int, elapsed1 as int, fade_ms as int) <= fade_level(
            target.level as int,
            elapsed2 as int,
            fade_ms as int,
        ) <= target.level,
{
    let t = target.level as int;
    let f = fade_ms as int;
    lemma_fade_bounded(t, elapsed1 as int, f);
    lemma_fade_bounded(t, elapsed2 as int, f);
    if f > 0 && elapsed2 < f {
        lemma_mul_inequality(elapsed1 as int, elapsed2 as int, t);
        assert(t * elapsed1 <= t * elapsed2) by (nonlinear_arith)
            requires
                elapsed1 <= elapsed2,
                t >= 0,
        ;
        lemma_div_is_ordered(t * elapsed1, t * elapsed2, f);
    }
}

/// A higher opacity never scales to a lower channel value.
pub proof fn lemma_scaled_monotone(level1: int, level2: int, max: int)
    requires
        0 <= level1 <= level2,
        0 <= max,
    ensures
        scaled(level1, max) <= scaled(level2, max),
{
    assert(level1 * max <= level2 * max) by (nonlinear_arith)
        requires
            level1 <= level2,
            max >= 0,
    ;
    lemma_div_is_ordered(level1 * max, level2 * max, u32::MAX as int);
}

} // verus!
