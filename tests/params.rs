use shape_stress::{ParameterState, RenderMode, ShapeType};

#[test]
fn default_parameters() {
    let p = ParameterState::new();
    assert_eq!(p.render_mode, RenderMode::Mode2D);
    assert_eq!(p.shape_type, ShapeType::Circle);
    assert_eq!(p.base_object_count, 100);
    assert_eq!(p.power_multiplier, 1);
    assert!(!p.stress_enabled);
    assert_eq!(p.stress_level, 1);
}

#[test]
fn base_count_saturates_at_both_ends() {
    let mut p = ParameterState::new();
    for _ in 0..30 {
        assert!(p.adjust_base_count(-10));
        assert!(p.base_object_count >= 10);
    }
    assert_eq!(p.base_object_count, 10);
    assert!(p.adjust_base_count(-10));
    assert_eq!(p.base_object_count, 10);
    for _ in 0..200 {
        p.adjust_base_count(10);
    }
    assert_eq!(p.base_object_count, 1000);
    p.adjust_base_count(10);
    assert_eq!(p.base_object_count, 1000);
    p.adjust_base_count(-10);
    assert_eq!(p.base_object_count, 990);
    p.adjust_base_count(i32::MAX);
    assert_eq!(p.base_object_count, 1000);
    p.adjust_base_count(i32::MIN);
    assert_eq!(p.base_object_count, 10);
}

#[test]
fn power_multiplier_saturates_at_both_ends() {
    let mut p = ParameterState::new();
    assert!(p.adjust_power_multiplier(-1));
    assert_eq!(p.power_multiplier, 1);
    for _ in 0..10 {
        p.adjust_power_multiplier(1);
    }
    assert_eq!(p.power_multiplier, 5);
    p.adjust_power_multiplier(-1);
    assert_eq!(p.power_multiplier, 4);
}

#[test]
fn shape_type_cycles_every_three() {
    for start in [ShapeType::Circle, ShapeType::Rectangle, ShapeType::Mixed] {
        let mut p = ParameterState::new();
        p.shape_type = start;
        assert!(p.cycle_shape_type());
        assert_ne!(p.shape_type, start);
        p.cycle_shape_type();
        p.cycle_shape_type();
        assert_eq!(p.shape_type, start);
    }
    let mut p = ParameterState::new();
    p.cycle_shape_type();
    assert_eq!(p.shape_type, ShapeType::Rectangle);
    p.cycle_shape_type();
    assert_eq!(p.shape_type, ShapeType::Mixed);
}

#[test]
fn render_mode_toggles() {
    let mut p = ParameterState::new();
    assert!(p.toggle_render_mode());
    assert_eq!(p.render_mode, RenderMode::Mode3D);
    p.toggle_render_mode();
    assert_eq!(p.render_mode, RenderMode::Mode2D);
}

#[test]
fn stress_settings_change() {
    let mut p = ParameterState::new();
    p.toggle_stress();
    assert!(p.stress_enabled);
    p.set_stress_level(3);
    assert_eq!(p.stress_level, 3);
    p.toggle_stress();
    assert!(!p.stress_enabled);
    assert_eq!(p.base_object_count, 100);
}
