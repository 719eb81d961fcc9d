//! Object-count scaling, shape generation, per-frame animation and a bounded
//! memory-churn buffer for a pair of animated-shape benchmarks.
//!
//! All geometry is held in integers: 2D lengths in micropixels, 3D lengths in
//! thousandths of a world unit, angles in microdegrees and time in
//! microseconds. A speed of `v` pixels per second is then `v` micropixels per
//! microsecond.
pub mod animation;
pub mod frame;
pub mod params;
pub mod pool;
pub mod random;
pub mod shapes;
pub mod stress;

pub use animation::{advance_rotation, slide_x, update_animations, CUBE_SPIN_RATE};
pub use frame::{FrameStats, MAX_WINDOW};
pub use params::{ParameterState, RenderMode, ShapeType};
pub use pool::{
    get_actual_object_count, initialize_objects, random_circles, CUBE_CAP, MIXED_SHAPE_CAP,
    SINGLE_SHAPE_CAP,
};
pub use random::{random_circle, random_color, random_cube, random_rectangle};
pub use shapes::{
    Circle, Cube, Rectangle2D, Rgba, Vec3, FULL_TURN, MICROPIXELS, PLAY_BOTTOM, PLAY_TOP,
    SCREEN_WIDTH,
};
pub use stress::{objects_per_level, StressBuffer, CHUNK_SIZE, RETAINED_CAP};
