use vstd::prelude::*;

verus! {

/// Lowest base object count.
pub const MIN_BASE_COUNT: i32 = 10;

/// Highest base object count.
pub const MAX_BASE_COUNT: i32 = 1000;

/// Lowest power multiplier.
pub const MIN_POWER_MULTIPLIER: i32 = 1;

/// Highest power multiplier.
pub const MAX_POWER_MULTIPLIER: i32 = 5;

/// Whether shapes are drawn flat or as cubes in space.
#[derive(Clone, Copy, Debug, PartialEq, Eq, Structural)]
pub enum RenderMode {
    Mode2D,
    Mode3D,
}

/// Which flat shapes are generated in 2D mode.
#[derive(Clone, Copy, Debug, PartialEq, Eq, Structural)]
pub enum ShapeType {
    Circle,
    Rectangle,
    Mixed,
}

/// The other render mode.
pub open spec fn flipped_mode(m: RenderMode) -> RenderMode {
    match m {
        RenderMode::Mode2D => RenderMode::Mode3D,
        RenderMode::Mode3D => RenderMode::Mode2D,
    }
}

/// Circle, then Rectangle, then Mixed, then Circle again.
pub open spec fn next_shape(s: ShapeType) -> ShapeType {
    match s {
        ShapeType::Circle => ShapeType::Rectangle,
        ShapeType::Rectangle => ShapeType::Mixed,
        ShapeType::Mixed => ShapeType::Circle,
    }
}

/// `v` held to `[lo, hi]`, saturating at either end.
pub open spec fn clamp(v: int, lo: int, hi: int) -> int {
    if v < lo {
        lo
    } else if v > hi {
        hi
    } else {
        v
    }
}

/// The value after `n` adjustments by `delta`, each clamped to `[lo, hi]`.
pub open spec fn adjusted_n_times(v: int, delta: int, lo: int, hi: int, n: nat) -> int
    decreases n,
{
    if n == 0 {
        v
    } else {
        clamp(adjusted_n_times(v, delta, lo, hi, (n - 1) as nat) + delta, lo, hi)
    }
}

/// `v + delta` held to `[lo, hi]`, computed without overflow.
fn clamped_add(v: i32, delta: i32, lo: i32, hi: i32) -> (r: i32)
    requires
        lo <= hi,
    ensures
        r == clamp(v + delta, lo as int, hi as int),
{
    let sum: i64 = v as i64 + delta as i64;
    if sum < lo as i64 {
        lo
    } else if sum > hi as i64 {
        hi
    } else {
        sum as i32
    }
}

/// The settings that a user changes between frames.
pub struct ParameterState {
    pub render_mode: RenderMode,
    pub shape_type: ShapeType,
    pub base_object_count: i32,
    pub power_multiplier: i32,
    pub stress_enabled: bool,
    pub stress_level: u32,
}

impl ParameterState {
    /// Every field within its documented range.
    pub open spec fn wf(&self) -> bool {
        &&& MIN_BASE_COUNT <= self.base_object_count <= MAX_BASE_COUNT
        &&& MIN_POWER_MULTIPLIER <= self.power_multiplier <= MAX_POWER_MULTIPLIER
        &&& 1 <= self.stress_level <= 3
    }

    /// 2D circles, base count 100, multiplier 1, stress off at level 1.
    pub fn new() -> (r: ParameterState)
        ensures
            r.wf(),
            r.render_mode == RenderMode::Mode2D,
            r.shape_type == ShapeType::Circle,
            r.base_object_count == 100,
            r.power_multiplier == 1,
            !r.stress_enabled,
            r.stress_level == 1,
    {
        ParameterState {
            render_mode: RenderMode::Mode2D,
            shape_type: ShapeType::Circle,
            base_object_count: 100,
            power_multiplier: 1,
            stress_enabled: false,
            stress_level: 1,
        }
    }

    /// Flips between 2D and 3D; the objects must then be regenerated.
    pub fn toggle_render_mode(&mut self) -> (regenerate: bool)
        ensures
            regenerate,
            *final(self) == (ParameterState { render_mode: flipped_mode(old(self).render_mode), ..*old(self) }),
    {
        self.render_mode = match self.render_mode {
            RenderMode::Mode2D => RenderMode::Mode3D,
            RenderMode::Mode3D => RenderMode::Mode2D,
        };
        true
    }

    /// Moves to the next shape type; the objects must then be regenerated.
    pub fn cycle_shape_type(&mut self) -> (regenerate: bool)
        ensures
            regenerate,
            *final(self) == (ParameterState { shape_type: next_shape(old(self).shape_type), ..*old(self) }),
    {
        self.shape_type = match self.shape_type {
            ShapeType::Circle => ShapeType::Rectangle,
            ShapeType::Rectangle => ShapeType::Mixed,
            ShapeType::Mixed => ShapeType::Circle,
        };
        true
    }

    /// Adds `delta` to the base count, saturating at 10 and 1000; the objects
    /// must then be regenerated.
    pub fn adjust_base_count(&mut self, delta: i32) -> (regenerate: bool)
        ensures
            regenerate,
            *final(self) == (ParameterState {
                base_object_count: clamp(
                    old(self).base_object_count + delta,
                    MIN_BASE_COUNT as int,
                    MAX_BASE_COUNT as int,
                ) as i32,
                ..*old(self)
            }),
    {
        self.base_object_count = clamped_add(self.base_object_count, delta, MIN_BASE_COUNT, MAX_BASE_COUNT);
        true
    }

    /// Adds `delta` to the power multiplier, saturating at 1 and 5; the
    /// objects must then be regenerated.
    pub fn adjust_power_multiplier(&mut self, delta: i32) -> (regenerate: bool)
        ensures
            regenerate,
            *final(self) == (ParameterState {
                power_multiplier: clamp(
                    old(self).power_multiplier + delta,
                    MIN_POWER_MULTIPLIER as int,
                    MAX_POWER_MULTIPLIER as int,
                ) as i32,
                ..*old(self)
            }),
    {
        self.power_multiplier = clamped_add(self.power_multiplier, delta, MIN_POWER_MULTIPLIER, MAX_POWER_MULTIPLIER);
        true
    }

    /// Switches the memory stress on or off.
    pub fn toggle_stress(&mut self)
        ensures
            *final(self) == (ParameterState { stress_enabled: !old(self).stress_enabled, ..*old(self) }),
    {
        self.stress_enabled = !self.stress_enabled;
    }

    /// Selects stress level 1, 2 or 3.
    pub fn set_stress_level(&mut self, level: u32)
        requires
            1 <= level <= 3,
        ensures
            *final(self) == (ParameterState { stress_level: level, ..*old(self) }),
    {
        self.stress_level = level;
    }
}

/// Every transition keeps each field within its range.
pub proof fn lemma_transitions_keep_ranges(p: ParameterState, delta: int)
    requires
        p.wf(),
    ensures
        (ParameterState { render_mode: flipped_mode(p.render_mode), ..p }).wf(),
        (ParameterState { shape_type: next_shape(p.shape_type), ..p }).wf(),
        (ParameterState { stress_enabled: !p.stress_enabled, ..p }).wf(),
        MIN_BASE_COUNT <= clamp(p.base_object_count + delta, MIN_BASE_COUNT as int, MAX_BASE_COUNT as int)
            <= MAX_BASE_COUNT,
        MIN_POWER_MULTIPLIER <= clamp(
            p.power_multiplier + delta,
            MIN_POWER_MULTIPLIER as int,
            MAX_POWER_MULTIPLIER as int,
        ) <= MAX_POWER_MULTIPLIER,
{
}

/// Cycling the shape type three times gives back the type one started from.
pub proof fn lemma_shape_cycle_has_period_three(s: ShapeType)
    ensures
        next_shape(next_shape(next_shape(s))) == s,
        next_shape(s) != s,
        next_shape(next_shape(s)) != s,
{
}

/// Adjusting a clamped value by a negative `delta` often enough to pass the
/// lower bound gives exactly the lower bound, however many more times it is
/// repeated; likewise a positive `delta` and the upper bound.
pub proof fn lemma_repeated_adjust_saturates(v: int, delta: int, lo: int, hi: int, n: nat)
    requires
        lo <= v <= hi,
    ensures
        lo <= adjusted_n_times(v, delta, lo, hi, n) <= hi,
        delta < 0 && v + n * delta <= lo ==> adjusted_n_times(v, delta, lo, hi, n) == lo,
        delta > 0 && v + n * delta >= hi ==> adjusted_n_times(v, delta, lo, hi, n) == hi,
{
    lemma_adjust_tracks_sum(v, delta, lo, hi, n);
}

/// A repeatedly adjusted value stays in range and, until it reaches the bound
/// it approaches, lies no further from that bound than the unclamped sum.
proof fn lemma_adjust_tracks_sum(v: int, delta: int, lo: int, hi: int, n: nat)
    requires
        lo <= v <= hi,
    ensures
        lo <= adjusted_n_times(v, delta, lo, hi, n) <= hi,
        delta < 0 ==> adjusted_n_times(v, delta, lo, hi, n) == lo || adjusted_n_times(v, delta, lo, hi, n)
            <= v + n * delta,
        delta > 0 ==> adjusted_n_times(v, delta, lo, hi, n) == hi || adjusted_n_times(v, delta, lo, hi, n)
            >= v + n * delta,
    decreases n,
{
    if n > 0 {
        let m = (n - 1) as nat;
        lemma_adjust_tracks_sum(v, delta, lo, hi, m);
        let prev = adjusted_n_times(v, delta, lo, hi, m);
        assert(adjusted_n_times(v, delta, lo, hi, n) == clamp(prev + delta, lo, hi));
        assert(v + n * delta == v + m * delta + delta) by (nonlinear_arith)
            requires
                n == m + 1,
        ;
    }
}

} // verus!
