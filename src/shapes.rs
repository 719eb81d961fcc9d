use vstd::prelude::*;

verus! {

/// A colour, one byte per channel.
#[derive(Clone, Copy, Debug, PartialEq, Eq, Structural)]
pub struct Rgba {
    pub r: u8,
    pub g: u8,
    pub b: u8,
    pub a: u8,
}

/// A point or an extent in space, in thousandths of a world unit.
#[derive(Clone, Copy, Debug, PartialEq, Eq, Structural)]
pub struct Vec3 {
    pub x: i64,
    pub y: i64,
    pub z: i64,
}

/// A moving circle; lengths in micropixels, speed in pixels per second.
#[derive(Clone, Copy, Debug, PartialEq, Eq, Structural)]
pub struct Circle {
    pub x: i64,
    pub y: i64,
    pub radius: i64,
    pub speed: i64,
    pub color: Rgba,
}

/// A moving rectangle; lengths in micropixels, speed in pixels per second.
#[derive(Clone, Copy, Debug, PartialEq, Eq, Structural)]
pub struct Rectangle2D {
    pub x: i64,
    pub y: i64,
    pub width: i64,
    pub height: i64,
    pub speed: i64,
    pub color: Rgba,
}

/// A spinning cube; rotation in microdegrees.
#[derive(Clone, Copy, Debug, PartialEq, Eq, Structural)]
pub struct Cube {
    pub position: Vec3,
    pub size: Vec3,
    pub rotation: i64,
    pub color: Rgba,
}

/// Micropixels in one pixel.
pub const MICROPIXELS: i64 = 1_000_000;

/// Width of the play area, in micropixels.
pub const SCREEN_WIDTH: i64 = 800 * MICROPIXELS;

/// Top of the band in which shapes are placed, in micropixels.
pub const PLAY_TOP: i64 = 100 * MICROPIXELS;

/// Bottom of the band in which shapes are placed, in micropixels.
pub const PLAY_BOTTOM: i64 = 500 * MICROPIXELS;

/// Microdegrees in a full turn.
pub const FULL_TURN: i64 = 360_000_000;

/// A colour as generated: any red, green and blue, fully opaque.
pub open spec fn generated_color(c: Rgba) -> bool {
    c.a == 255
}

/// A circle as generated, placed in the band from `y_min` to `y_max`.
pub open spec fn generated_circle(c: Circle, y_min: int, y_max: int) -> bool {
    &&& 0 <= c.x < SCREEN_WIDTH
    &&& y_min <= c.y < y_max
    &&& 5 * MICROPIXELS <= c.radius < 25 * MICROPIXELS
    &&& 50 <= c.speed < 250
    &&& generated_color(c.color)
}

/// A rectangle as generated.
pub open spec fn generated_rectangle(r: Rectangle2D) -> bool {
    &&& 0 <= r.x < SCREEN_WIDTH
    &&& PLAY_TOP <= r.y < PLAY_BOTTOM
    &&& 10 * MICROPIXELS <= r.width < 50 * MICROPIXELS
    &&& 10 * MICROPIXELS <= r.height < 50 * MICROPIXELS
    &&& 30 <= r.speed < 180
    &&& generated_color(r.color)
}

/// A cube as generated: x and z in [-10, 10), y in [-5, 5), each side in
/// [0.5, 2.5), rotation in [0, 360) degrees.
pub open spec fn generated_cube(c: Cube) -> bool {
    &&& -10_000 <= c.position.x < 10_000
    &&& -5_000 <= c.position.y < 5_000
    &&& -10_000 <= c.position.z < 10_000
    &&& 500 <= c.size.x < 2_500
    &&& 500 <= c.size.y < 2_500
    &&& 500 <= c.size.z < 2_500
    &&& 0 <= c.rotation < FULL_TURN
    &&& generated_color(c.color)
}

} // verus!
