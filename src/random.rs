use rand::Rng;
use vstd::prelude::*;

use crate::shapes::{
    generated_circle, generated_color, generated_cube, generated_rectangle, Circle, Cube,
    Rectangle2D, Rgba, Vec3, MICROPIXELS, PLAY_BOTTOM, PLAY_TOP, SCREEN_WIDTH, FULL_TURN,
};

verus! {

#[verifier::external_type_specification]
#[verifier::external_body]
pub struct ExStdRng(rand::rngs::StdRng);

/// Relies on rand's `Rng::gen_range` over a half-open `i64` range: it returns
/// a value at least `low` and below `high`, and panics only on an empty range.
#[verifier::external_body]
fn random_in(rng: &mut rand::rngs::StdRng, low: i64, high: i64) -> (r: i64)
    requires
        low < high,
    ensures
        low <= r < high,
{
    rng.gen_range(low..high)
}

/// A random colour channel, 0 to 255.
fn random_channel(rng: &mut rand::rngs::StdRng) -> (r: u8) {
    random_in(rng, 0, 256) as u8
}

/// A random opaque colour.
pub fn random_color(rng: &mut rand::rngs::StdRng) -> (c: Rgba)
    ensures
        generated_color(c),
{
    let r = random_channel(rng);
    let g = random_channel(rng);
    let b = random_channel(rng);
    Rgba { r, g, b, a: 255 }
}

/// A random circle placed anywhere across the play area, between heights
/// `y_min` and `y_max`.
pub fn random_circle(rng: &mut rand::rngs::StdRng, y_min: i64, y_max: i64) -> (c: Circle)
    requires
        y_min < y_max,
    ensures
        generated_circle(c, y_min as int, y_max as int),
{
    let x = random_in(rng, 0, SCREEN_WIDTH);
    let y = random_in(rng, y_min, y_max);
    let radius = random_in(rng, 5 * MICROPIXELS, 25 * MICROPIXELS);
    let speed = random_in(rng, 50, 250);
    let color = random_color(rng);
    Circle { x, y, radius, speed, color }
}

/// A random rectangle placed in the play area.
pub fn random_rectangle(rng: &mut rand::rngs::StdRng) -> (r: Rectangle2D)
    ensures
        generated_rectangle(r),
{
    let x = random_in(rng, 0, SCREEN_WIDTH);
    let y = random_in(rng, PLAY_TOP, PLAY_BOTTOM);
    let width = random_in(rng, 10 * MICROPIXELS, 50 * MICROPIXELS);
    let height = random_in(rng, 10 * MICROPIXELS, 50 * MICROPIXELS);
    let speed = random_in(rng, 30, 180);
    let color = random_color(rng);
    Rectangle2D { x, y, width, height, speed, color }
}

/// A random cube near the origin.
pub fn random_cube(rng: &mut rand::rngs::StdRng) -> (c: Cube)
    ensures
        generated_cube(c),
{
    let px = random_in(rng, -10_000, 10_000);
    let py = random_in(rng, -5_000, 5_000);
    let pz = random_in(rng, -10_000, 10_000);
    let sx = random_in(rng, 500, 2_500);
    let sy = random_in(rng, 500, 2_500);
    let sz = random_in(rng, 500, 2_500);
    let rotation = random_in(rng, 0, FULL_TURN);
    let color = random_color(rng);
    Cube {
        position: Vec3 { x: px, y: py, z: pz },
        size: Vec3 { x: sx, y: sy, z: sz },
        rotation,
        color,
    }
}

} // verus!
