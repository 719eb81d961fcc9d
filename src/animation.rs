use vstd::prelude::*;

use crate::shapes::{Circle, Cube, Rectangle2D, FULL_TURN, SCREEN_WIDTH};

verus! {

/// Cube spin, in degrees per second (microdegrees per microsecond).
pub const CUBE_SPIN_RATE: i64 = 45;

/// Horizontal position after moving at `speed` for `dt` microseconds: past
/// the right edge by more than its own `extent`, a shape re-enters just off
/// the left edge.
pub open spec fn slid_x(x: int, speed: int, extent: int, dt: int) -> int {
    let moved = x + speed * dt;
    if moved > SCREEN_WIDTH + extent {
        -extent
    } else {
        moved
    }
}

/// Angle after turning at `rate` for `dt` microseconds; a result past a full
/// turn loses one full turn, keeping the overshoot.
pub open spec fn turned(rotation: int, rate: int, dt: int) -> int {
    let r = rotation + rate * dt;
    if r > FULL_TURN {
        r - FULL_TURN
    } else {
        r
    }
}

/// The slide of one shape can be computed in `i64`.
pub open spec fn slide_fits(x: int, speed: int, extent: int, dt: int) -> bool {
    &&& i64::MIN <= speed * dt <= i64::MAX
    &&& i64::MIN <= x + speed * dt <= i64::MAX
    &&& SCREEN_WIDTH + extent <= i64::MAX
    &&& extent > i64::MIN
}

/// The turn of one shape can be computed in `i64`.
pub open spec fn turn_fits(rotation: int, rate: int, dt: int) -> bool {
    &&& i64::MIN <= rate * dt <= i64::MAX
    &&& i64::MIN <= rotation + rate * dt <= i64::MAX
}

pub open spec fn circle_fits(c: Circle, dt: int) -> bool {
    slide_fits(c.x as int, c.speed as int, c.radius as int, dt)
}

pub open spec fn rectangle_fits(r: Rectangle2D, dt: int) -> bool {
    slide_fits(r.x as int, r.speed as int, r.width as int, dt)
}

pub open spec fn cube_fits(c: Cube, dt: int) -> bool {
    turn_fits(c.rotation as int, CUBE_SPIN_RATE as int, dt)
}

/// Moves `x` at `speed` for `dt` microseconds, wrapping past the right edge.
pub fn slide_x(x: i64, speed: i64, extent: i64, dt: u32) -> (r: i64)
    requires
        slide_fits(x as int, speed as int, extent as int, dt as int),
    ensures
        r == slid_x(x as int, speed as int, extent as int, dt as int),
{
    let moved = x + speed * (dt as i64);
    if moved > SCREEN_WIDTH + extent {
        -extent
    } else {
        moved
    }
}

/// Turns `rotation` at `rate` for `dt` microseconds, less one full turn if
/// that passes a full turn.
pub fn advance_rotation(rotation: i64, rate: i64, dt: u32) -> (r: i64)
    requires
        turn_fits(rotation as int, rate as int, dt as int),
    ensures
        r == turned(rotation as int, rate as int, dt as int),
{
    let r = rotation + rate * (dt as i64);
    if r > FULL_TURN {
        r - FULL_TURN
    } else {
        r
    }
}

/// Advances every object by `dt` microseconds in place: circles and
/// rectangles slide right and wrap, cubes spin at 45 degrees per second.
/// Nothing else about any object changes.
pub fn update_animations(
    circles: &mut Vec<Circle>,
    rectangles: &mut Vec<Rectangle2D>,
    cubes: &mut Vec<Cube>,
    delta_time: u32,
)
    requires
        forall|i: int| 0 <= i < old(circles)@.len() ==> circle_fits(#[trigger] old(circles)@[i], delta_time as int),
        forall|i: int|
            0 <= i < old(rectangles)@.len() ==> rectangle_fits(#[trigger] old(rectangles)@[i], delta_time as int),
        forall|i: int| 0 <= i < old(cubes)@.len() ==> cube_fits(#[trigger] old(cubes)@[i], delta_time as int),
    ensures
        final(circles)@.len() == old(circles)@.len(),
        final(rectangles)@.len() == old(rectangles)@.len(),
        final(cubes)@.len() == old(cubes)@.len(),
        forall|i: int|
            0 <= i < old(circles)@.len() ==> #[trigger] final(circles)@[i] == (Circle {
                x: slid_x(
                    old(circles)@[i].x as int,
                    old(circles)@[i].speed as int,
                    old(circles)@[i].radius as int,
                    delta_time as int,
                ) as i64,
                ..old(circles)@[i]
            }),
        forall|i: int|
            0 <= i < old(rectangles)@.len() ==> #[trigger] final(rectangles)@[i] == (Rectangle2D {
                x: slid_x(
                    old(rectangles)@[i].x as int,
                    old(rectangles)@[i].speed as int,
                    old(rectangles)@[i].width as int,
                    delta_time as int,
                ) as i64,
                ..old(rectangles)@[i]
            }),
        forall|i: int|
            0 <= i < old(cubes)@.len() ==> #[trigger] final(cubes)@[i] == (Cube {
                rotation: turned(old(cubes)@[i].rotation as int, CUBE_SPIN_RATE as int, delta_time as int) as i64,
                ..old(cubes)@[i]
            }),
{
    let ghost c0 = circles@;
    let mut i: usize = 0;
    while i < circles.len()
        invariant
            circles@.len() == c0.len(),
            0 <= i <= c0.len(),
            forall|j: int| 0 <= j < c0.len() ==> circle_fits(#[trigger] c0[j], delta_time as int),
            forall|j: int| i <= j < c0.len() ==> circles@[j] == c0[j],
            forall|j: int|
                0 <= j < i ==> #[trigger] circles@[j] == (Circle {
                    x: slid_x(c0[j].x as int, c0[j].speed as int, c0[j].radius as int, delta_time as int) as i64,
                    ..c0[j]
                }),
        decreases c0.len() - i,
    {
        let mut c = circles[i];
        assert(circle_fits(c0[i as int], delta_time as int));
        c.x = slide_x(c.x, c.speed, c.radius, delta_time);
        circles.set(i, c);
        i = i + 1;
    }
    let ghost r0 = rectangles@;
    let mut i: usize = 0;
    while i < rectangles.len()
        invariant
            rectangles@.len() == r0.len(),
            0 <= i <= r0.len(),
            forall|j: int| 0 <= j < r0.len() ==> rectangle_fits(#[trigger] r0[j], delta_time as int),
            forall|j: int| i <= j < r0.len() ==> rectangles@[j] == r0[j],
            forall|j: int|
                0 <= j < i ==> #[trigger] rectangles@[j] == (Rectangle2D {
                    x: slid_x(r0[j].x as int, r0[j].speed as int, r0[j].width as int, delta_time as int) as i64,
                    ..r0[j]
                }),
        decreases r0.len() - i,
    {
        let mut r = rectangles[i];
        assert(rectangle_fits(r0[i as int], delta_time as int));
        r.x = slide_x(r.x, r.speed, r.width, delta_time);
        rectangles.set(i, r);
        i = i + 1;
    }
    let ghost q0 = cubes@;
    let mut i: usize = 0;
    while i < cubes.len()
        invariant
            cubes@.len() == q0.len(),
            0 <= i <= q0.len(),
            forall|j: int| 0 <= j < q0.len() ==> cube_fits(#[trigger] q0[j], delta_time as int),
            forall|j: int| i <= j < q0.len() ==> cubes@[j] == q0[j],
            forall|j: int|
                0 <= j < i ==> #[trigger] cubes@[j] == (Cube {
                    rotation: turned(q0[j].rotation as int, CUBE_SPIN_RATE as int, delta_time as int) as i64,
                    ..q0[j]
                }),
        decreases q0.len() - i,
    {
        let mut c = cubes[i];
        assert(cube_fits(q0[i as int], delta_time as int));
        c.rotation = advance_rotation(c.rotation, CUBE_SPIN_RATE, delta_time);
        cubes.set(i, c);
        i = i + 1;
    }
}

/// A step of no time leaves a shape that is on its track where it is, and a
/// turn of no time leaves an angle of at most a full turn as it is.
pub proof fn lemma_zero_step_is_identity(x: int, speed: int, extent: int, rotation: int, rate: int)
    requires
        x <= SCREEN_WIDTH + extent,
        rotation <= FULL_TURN,
    ensures
        slid_x(x, speed, extent, 0) == x,
        turned(rotation, rate, 0) == rotation,
{
}

/// A shape moving right that starts on its track, from just off the left
/// edge to just past the right edge, stays on it after any step.
pub proof fn lemma_slide_stays_on_track(x: int, speed: int, extent: int, dt: int)
    requires
        extent >= 0,
        speed >= 0,
        dt >= 0,
        -extent <= x <= SCREEN_WIDTH + extent,
    ensures
        -extent <= slid_x(x, speed, extent, dt) <= SCREEN_WIDTH + extent,
{
    assert(speed * dt >= 0) by (nonlinear_arith)
        requires
            speed >= 0,
            dt >= 0,
    ;
}

/// An angle of at most a full turn stays within one full turn after any
/// step that turns it by at most a full turn.
pub proof fn lemma_turn_stays_bounded(rotation: int, rate: int, dt: int)
    requires
        0 <= rotation <= FULL_TURN,
        0 <= rate * dt <= FULL_TURN,
    ensures
        0 <= turned(rotation, rate, dt) <= FULL_TURN,
{
}

} // verus!
