use vstd::prelude::*;

use crate::params::{RenderMode, ShapeType};
use crate::random::{random_circle, random_cube, random_rectangle};
use crate::shapes::{
    generated_circle, generated_cube, generated_rectangle, Circle, Cube, Rectangle2D, PLAY_BOTTOM,
    PLAY_TOP,
};

verus! {

/// Most circles or rectangles generated when only one kind is drawn.
pub const SINGLE_SHAPE_CAP: i32 = 10000;

/// Most circles, and most rectangles, generated when both kinds are drawn.
pub const MIXED_SHAPE_CAP: i32 = 5000;

/// Most cubes generated.
pub const CUBE_CAP: i32 = 5000;

/// Ten to the power `n`.
pub open spec fn pow10(n: nat) -> int
    decreases n,
{
    if n == 0 {
        1
    } else {
        10 * pow10((n - 1) as nat)
    }
}

/// The effective population: `base × 10^(multiplier − 1)`.
pub open spec fn actual_count(base: int, multiplier: int) -> int {
    base * pow10((multiplier - 1) as nat)
}

/// The smaller of `a` and `b`.
pub open spec fn min(a: int, b: int) -> int {
    if a < b {
        a
    } else {
        b
    }
}

/// How many circles a regeneration produces.
pub open spec fn circle_count(mode: RenderMode, shape: ShapeType, actual: int) -> int {
    match (mode, shape) {
        (RenderMode::Mode2D, ShapeType::Circle) => min(actual, SINGLE_SHAPE_CAP as int),
        (RenderMode::Mode2D, ShapeType::Mixed) => min(actual / 2, MIXED_SHAPE_CAP as int),
        _ => 0,
    }
}

/// How many rectangles a regeneration produces.
pub open spec fn rectangle_count(mode: RenderMode, shape: ShapeType, actual: int) -> int {
    match (mode, shape) {
        (RenderMode::Mode2D, ShapeType::Rectangle) => min(actual, SINGLE_SHAPE_CAP as int),
        (RenderMode::Mode2D, ShapeType::Mixed) => min(actual / 2, MIXED_SHAPE_CAP as int),
        _ => 0,
    }
}

/// How many cubes a regeneration produces.
pub open spec fn cube_count(mode: RenderMode, actual: int) -> int {
    match mode {
        RenderMode::Mode3D => min(actual, CUBE_CAP as int),
        RenderMode::Mode2D => 0,
    }
}

proof fn lemma_pow10_positive_and_monotone(a: nat, b: nat)
    requires
        a <= b,
    ensures
        1 <= pow10(a) <= pow10(b),
    decreases b,
{
    if b > a {
        lemma_pow10_positive_and_monotone(a, (b - 1) as nat);
    } else if b > 0 {
        lemma_pow10_positive_and_monotone(0, (b - 1) as nat);
    }
}

/// `base × 10^(multiplier − 1)`, for any base and multiplier whose product
/// fits an `i32`.
pub fn get_actual_object_count(base: i32, multiplier: i32) -> (r: i32)
    requires
        base >= 0,
        multiplier >= 1,
        actual_count(base as int, multiplier as int) <= i32::MAX,
    ensures
        r == actual_count(base as int, multiplier as int),
{
    let mut r: i32 = base;
    let mut k: i32 = 1;
    while k < multiplier
        invariant
            1 <= k <= multiplier,
            base >= 0,
            actual_count(base as int, multiplier as int) <= i32::MAX,
            r == base * pow10((k - 1) as nat),
        decreases multiplier - k,
    {
        proof {
            lemma_pow10_positive_and_monotone(k as nat, (multiplier - 1) as nat);
            assert(base * pow10(k as nat) <= base * pow10((multiplier - 1) as nat)) by (nonlinear_arith)
                requires
                    base >= 0,
                    pow10(k as nat) <= pow10((multiplier - 1) as nat),
            ;
            assert(pow10(k as nat) == 10 * pow10((k - 1) as nat));
            assert(base * pow10(k as nat) == 10 * (base * pow10((k - 1) as nat))) by (nonlinear_arith)
                requires
                    pow10(k as nat) == 10 * pow10((k - 1) as nat),
            ;
        }
        r = r * 10;
        k = k + 1;
    }
    r
}

/// Within the documented ranges the effective population runs from 10 to
/// ten million.
pub proof fn lemma_actual_count_range(base: int, multiplier: int)
    requires
        10 <= base <= 1000,
        1 <= multiplier <= 5,
    ensures
        10 <= actual_count(base, multiplier) <= 10_000_000,
{
    lemma_pow10_positive_and_monotone((multiplier - 1) as nat, 4);
    reveal_with_fuel(pow10, 5);
    assert(pow10(4) == 10_000);
    let p = pow10((multiplier - 1) as nat);
    assert(10 <= base * p <= 10_000_000) by (nonlinear_arith)
        requires
            10 <= base <= 1000,
            1 <= p <= 10_000,
    ;
}

/// Appends `n` random circles, placed between heights `y_min` and `y_max`,
/// to `circles`.
fn push_circles(circles: &mut Vec<Circle>, n: i32, y_min: i64, y_max: i64, rng: &mut rand::rngs::StdRng)
    requires
        n >= 0,
        y_min < y_max,
    ensures
        final(circles)@.len() == old(circles)@.len() + n,
        forall|i: int| 0 <= i < old(circles)@.len() ==> final(circles)@[i] == old(circles)@[i],
        forall|i: int|
            old(circles)@.len() <= i < final(circles)@.len() ==> generated_circle(
                #[trigger] final(circles)@[i],
                y_min as int,
                y_max as int,
            ),
{
    let ghost start = circles@;
    let mut k: i32 = 0;
    while k < n
        invariant
            0 <= k <= n,
            y_min < y_max,
            circles@.len() == start.len() + k,
            forall|i: int| 0 <= i < start.len() ==> circles@[i] == start[i],
            forall|i: int|
                start.len() <= i < circles@.len() ==> generated_circle(
                    #[trigger] circles@[i],
                    y_min as int,
                    y_max as int,
                ),
        decreases n - k,
    {
        let c = random_circle(rng, y_min, y_max);
        circles.push(c);
        k = k + 1;
    }
}

/// `count` random circles placed between heights `y_min` and `y_max`.
pub fn random_circles(count: i32, y_min: i64, y_max: i64, rng: &mut rand::rngs::StdRng) -> (r: Vec<Circle>)
    requires
        count >= 0,
        y_min < y_max,
    ensures
        r@.len() == count,
        forall|i: int| 0 <= i < r@.len() ==> generated_circle(#[trigger] r@[i], y_min as int, y_max as int),
{
    let mut r: Vec<Circle> = Vec::new();
    push_circles(&mut r, count, y_min, y_max, rng);
    r
}

/// Appends `n` random rectangles to `rectangles`.
fn push_rectangles(rectangles: &mut Vec<Rectangle2D>, n: i32, rng: &mut rand::rngs::StdRng)
    requires
        n >= 0,
    ensures
        final(rectangles)@.len() == old(rectangles)@.len() + n,
        forall|i: int| 0 <= i < old(rectangles)@.len() ==> final(rectangles)@[i] == old(rectangles)@[i],
        forall|i: int|
            old(rectangles)@.len() <= i < final(rectangles)@.len() ==> generated_rectangle(
                #[trigger] final(rectangles)@[i],
            ),
{
    let ghost start = rectangles@;
    let mut k: i32 = 0;
    while k < n
        invariant
            0 <= k <= n,
            rectangles@.len() == start.len() + k,
            forall|i: int| 0 <= i < start.len() ==> rectangles@[i] == start[i],
            forall|i: int|
                start.len() <= i < rectangles@.len() ==> generated_rectangle(#[trigger] rectangles@[i]),
        decreases n - k,
    {
        let r = random_rectangle(rng);
        rectangles.push(r);
        k = k + 1;
    }
}

/// Appends `n` random cubes to `cubes`.
fn push_cubes(cubes: &mut Vec<Cube>, n: i32, rng: &mut rand::rngs::StdRng)
    requires
        n >= 0,
    ensures
        final(cubes)@.len() == old(cubes)@.len() + n,
        forall|i: int| 0 <= i < old(cubes)@.len() ==> final(cubes)@[i] == old(cubes)@[i],
        forall|i: int|
            old(cubes)@.len() <= i < final(cubes)@.len() ==> generated_cube(#[trigger] final(cubes)@[i]),
{
    let ghost start = cubes@;
    let mut k: i32 = 0;
    while k < n
        invariant
            0 <= k <= n,
            cubes@.len() == start.len() + k,
            forall|i: int| 0 <= i < start.len() ==> cubes@[i] == start[i],
            forall|i: int| start.len() <= i < cubes@.len() ==> generated_cube(#[trigger] cubes@[i]),
        decreases n - k,
    {
        let c = random_cube(rng);
        cubes.push(c);
        k = k + 1;
    }
}

fn min_i32(a: i32, b: i32) -> (r: i32)
    ensures
        r == min(a as int, b as int),
{
    if a < b {
        a
    } else {
        b
    }
}

/// Discards every object and generates a fresh population for the given
/// mode, shape type, base count and power multiplier: only the sequences
/// that the mode and shape type use are filled, each to its cap at most, and
/// every object is drawn from the ranges its kind allows.
pub fn initialize_objects(
    circles: &mut Vec<Circle>,
    rectangles: &mut Vec<Rectangle2D>,
    cubes: &mut Vec<Cube>,
    render_mode: &RenderMode,
    shape_type: &ShapeType,
    base_count: i32,
    power_multiplier: i32,
    rng: &mut rand::rngs::StdRng,
)
    requires
        10 <= base_count <= 1000,
        1 <= power_multiplier <= 5,
    ensures
        final(circles)@.len() == circle_count(
            *render_mode,
            *shape_type,
            actual_count(base_count as int, power_multiplier as int),
        ),
        final(rectangles)@.len() == rectangle_count(
            *render_mode,
            *shape_type,
            actual_count(base_count as int, power_multiplier as int),
        ),
        final(cubes)@.len() == cube_count(
            *render_mode,
            actual_count(base_count as int, power_multiplier as int),
        ),
        forall|i: int|
            0 <= i < final(circles)@.len() ==> generated_circle(
                #[trigger] final(circles)@[i],
                PLAY_TOP as int,
                PLAY_BOTTOM as int,
            ),
        forall|i: int| 0 <= i < final(rectangles)@.len() ==> generated_rectangle(#[trigger] final(rectangles)@[i]),
        forall|i: int| 0 <= i < final(cubes)@.len() ==> generated_cube(#[trigger] final(cubes)@[i]),
{
    proof {
        lemma_actual_count_range(base_count as int, power_multiplier as int);
    }
    let actual = get_actual_object_count(base_count, power_multiplier);
    circles.clear();
    rectangles.clear();
    cubes.clear();
    match render_mode {
        RenderMode::Mode2D => {
            match shape_type {
                ShapeType::Circle => {
                    push_circles(circles, min_i32(actual, SINGLE_SHAPE_CAP), PLAY_TOP, PLAY_BOTTOM, rng);
                },
                ShapeType::Rectangle => {
                    push_rectangles(rectangles, min_i32(actual, SINGLE_SHAPE_CAP), rng);
                },
                ShapeType::Mixed => {
                    let half_count = actual / 2;
                    push_circles(circles, min_i32(half_count, MIXED_SHAPE_CAP), PLAY_TOP, PLAY_BOTTOM, rng);
                    push_rectangles(rectangles, min_i32(half_count, MIXED_SHAPE_CAP), rng);
                },
            }
        },
        RenderMode::Mode3D => {
            push_cubes(cubes, min_i32(actual, CUBE_CAP), rng);
        },
    }
}

} // verus!
