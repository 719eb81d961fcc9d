use rand::rngs::StdRng;
use rand::SeedableRng;
use shape_stress::{
    get_actual_object_count, initialize_objects, random_circles, Circle, Cube, Rectangle2D,
    RenderMode, ShapeType, CUBE_CAP, MICROPIXELS, PLAY_BOTTOM, PLAY_TOP, SCREEN_WIDTH,
    SINGLE_SHAPE_CAP, FULL_TURN,
};

fn generate(mode: RenderMode, shape: ShapeType, base: i32, mult: i32) -> (Vec<Circle>, Vec<Rectangle2D>, Vec<Cube>) {
    let mut rng = StdRng::seed_from_u64(42);
    let mut circles = Vec::new();
    let mut rectangles = Vec::new();
    let mut cubes = Vec::new();
    initialize_objects(&mut circles, &mut rectangles, &mut cubes, &mode, &shape, base, mult, &mut rng);
    (circles, rectangles, cubes)
}

#[test]
fn actual_count_is_base_times_power_of_ten() {
    assert_eq!(get_actual_object_count(100, 1), 100);
    assert_eq!(get_actual_object_count(100, 3), 10_000);
    assert_eq!(get_actual_object_count(10, 2), 100);
    assert_eq!(get_actual_object_count(1000, 5), 10_000_000);
    assert_eq!(get_actual_object_count(370, 4), 370_000);
}

#[test]
fn circle_generation_is_capped() {
    let (c, r, q) = generate(RenderMode::Mode2D, ShapeType::Circle, 1000, 5);
    assert_eq!(c.len(), SINGLE_SHAPE_CAP as usize);
    assert!(r.is_empty());
    assert!(q.is_empty());
}

#[test]
fn circle_generation_below_cap() {
    let (c, r, q) = generate(RenderMode::Mode2D, ShapeType::Circle, 250, 2);
    assert_eq!(c.len(), 2500);
    assert!(r.is_empty());
    assert!(q.is_empty());
}

#[test]
fn rectangle_generation_counts() {
    let (c, r, q) = generate(RenderMode::Mode2D, ShapeType::Rectangle, 30, 3);
    assert!(c.is_empty());
    assert_eq!(r.len(), 3000);
    assert!(q.is_empty());
    let (_, r, _) = generate(RenderMode::Mode2D, ShapeType::Rectangle, 20, 4);
    assert_eq!(r.len(), SINGLE_SHAPE_CAP as usize);
}

#[test]
fn mixed_generation_splits_in_half() {
    let (c, r, q) = generate(RenderMode::Mode2D, ShapeType::Mixed, 100, 1);
    assert_eq!(get_actual_object_count(100, 1), 100);
    assert_eq!(c.len(), 50);
    assert_eq!(r.len(), 50);
    assert_eq!(q.len(), 0);
}

#[test]
fn mixed_generation_caps_each_half() {
    let (c, r, q) = generate(RenderMode::Mode2D, ShapeType::Mixed, 200, 3);
    assert_eq!(c.len(), 5000);
    assert_eq!(r.len(), 5000);
    assert!(q.is_empty());
    let (c, r, _) = generate(RenderMode::Mode2D, ShapeType::Mixed, 15, 1);
    assert_eq!(c.len(), 7);
    assert_eq!(r.len(), 7);
}

#[test]
fn cube_generation_counts() {
    let (c, r, q) = generate(RenderMode::Mode3D, ShapeType::Mixed, 100, 2);
    assert!(c.is_empty());
    assert!(r.is_empty());
    assert_eq!(q.len(), 1000);
    let (_, _, q) = generate(RenderMode::Mode3D, ShapeType::Circle, 60, 3);
    assert_eq!(q.len(), CUBE_CAP as usize);
}

#[test]
fn regeneration_discards_previous_objects() {
    let mut rng = StdRng::seed_from_u64(7);
    let mut circles = Vec::new();
    let mut rectangles = Vec::new();
    let mut cubes = Vec::new();
    initialize_objects(&mut circles, &mut rectangles, &mut cubes, &RenderMode::Mode2D, &ShapeType::Mixed, 40, 1, &mut rng);
    assert_eq!(circles.len(), 20);
    initialize_objects(&mut circles, &mut rectangles, &mut cubes, &RenderMode::Mode3D, &ShapeType::Mixed, 40, 1, &mut rng);
    assert!(circles.is_empty());
    assert!(rectangles.is_empty());
    assert_eq!(cubes.len(), 40);
}

#[test]
fn generated_shapes_lie_in_their_ranges() {
    let (c, _, _) = generate(RenderMode::Mode2D, ShapeType::Circle, 500, 1);
    for x in &c {
        assert!(0 <= x.x && x.x < SCREEN_WIDTH);
        assert!(PLAY_TOP <= x.y && x.y < PLAY_BOTTOM);
        assert!(5 * MICROPIXELS <= x.radius && x.radius < 25 * MICROPIXELS);
        assert!(50 <= x.speed && x.speed < 250);
        assert_eq!(x.color.a, 255);
    }
    let (_, r, _) = generate(RenderMode::Mode2D, ShapeType::Rectangle, 500, 1);
    for x in &r {
        assert!(0 <= x.x && x.x < SCREEN_WIDTH);
        assert!(10 * MICROPIXELS <= x.width && x.width < 50 * MICROPIXELS);
        assert!(10 * MICROPIXELS <= x.height && x.height < 50 * MICROPIXELS);
        assert!(30 <= x.speed && x.speed < 180);
    }
    let (_, _, q) = generate(RenderMode::Mode3D, ShapeType::Circle, 500, 1);
    for x in &q {
        assert!(-10_000 <= x.position.x && x.position.x < 10_000);
        assert!(-5_000 <= x.position.y && x.position.y < 5_000);
        assert!(-10_000 <= x.position.z && x.position.z < 10_000);
        assert!(500 <= x.size.y && x.size.y < 2_500);
        assert!(0 <= x.rotation && x.rotation < FULL_TURN);
        assert_eq!(x.color.a, 255);
    }
}

#[test]
fn generation_is_random_but_reproducible() {
    let (a, _, _) = generate(RenderMode::Mode2D, ShapeType::Circle, 100, 1);
    let (b, _, _) = generate(RenderMode::Mode2D, ShapeType::Circle, 100, 1);
    assert_eq!(a, b);
    assert!(a.iter().any(|c| c.x != a[0].x));
    assert!(a.iter().any(|c| c.speed != a[0].speed));
    assert!(a.iter().any(|c| c.color.r != 0));
}

#[test]
fn circle_band_is_respected() {
    let mut rng = StdRng::seed_from_u64(3);
    let c = random_circles(20, 300 * MICROPIXELS, 500 * MICROPIXELS, &mut rng);
    assert_eq!(c.len(), 20);
    for x in &c {
        assert!(300 * MICROPIXELS <= x.y && x.y < 500 * MICROPIXELS);
    }
}
