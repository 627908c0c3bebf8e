use fractal::controls::{
    convert_order_of_magnitude, Command, Controls, Effect, DEFAULT_ITERATIONS,
};
use fractal::gate::RenderGate;

fn clean() -> Controls {
    let mut c = Controls::new();
    c.gate.mark_clean();
    c
}

#[test]
fn new_controls_use_the_defaults() {
    let c = Controls::new();
    assert_eq!(c.iterations, DEFAULT_ITERATIONS);
    assert_eq!(c.iterations, 50);
    assert_eq!(c.scale_exponent, 0);
    assert_eq!(c.gate, RenderGate::Dirty);
}

#[test]
fn order_of_magnitude_gives_step_exponent() {
    assert_eq!(convert_order_of_magnitude(0), 0);
    assert_eq!(convert_order_of_magnitude(-1), 0);
    assert_eq!(convert_order_of_magnitude(-3), -2);
    assert_eq!(convert_order_of_magnitude(2), 3);
    assert_eq!(convert_order_of_magnitude(i32::MAX), i32::MAX);
    assert_eq!(convert_order_of_magnitude(i32::MIN), i32::MIN + 1);
}

#[test]
fn moves_mark_the_gate_dirty() {
    let cases = [
        (Command::ZoomOut, Effect::Move { zoom: 1, x: 0, y: 0 }),
        (Command::ZoomIn, Effect::Move { zoom: -1, x: 0, y: 0 }),
        (Command::PanUp, Effect::Move { zoom: 0, x: 0, y: -1 }),
        (Command::PanDown, Effect::Move { zoom: 0, x: 0, y: 1 }),
        (Command::PanLeft, Effect::Move { zoom: 0, x: -1, y: 0 }),
        (Command::PanRight, Effect::Move { zoom: 0, x: 1, y: 0 }),
    ];
    for (cmd, effect) in cases {
        let mut c = clean();
        assert_eq!(c.apply(cmd, -3, true), effect);
        assert_eq!(c.gate, RenderGate::Dirty);
        assert_eq!(c.scale_exponent, -2);
        assert_eq!(c.iterations, 50);
    }
}

#[test]
fn zoom_in_is_refused_without_positive_zoom() {
    let mut c = clean();
    assert_eq!(c.apply(Command::ZoomIn, 0, false), Effect::Nothing);
    assert_eq!(c.gate, RenderGate::Clean);
}

#[test]
fn iteration_cap_steps_and_floor() {
    let mut c = clean();
    assert_eq!(c.apply(Command::FewerIterations, 0, true), Effect::Nothing);
    assert_eq!(c.iterations, 50);
    assert_eq!(c.gate, RenderGate::Clean);
    c.apply(Command::MoreIterations, 0, true);
    assert_eq!(c.iterations, 150);
    assert_eq!(c.gate, RenderGate::Dirty);
    c.gate.mark_clean();
    c.apply(Command::FewerIterations, 0, true);
    assert_eq!(c.iterations, 50);
    assert_eq!(c.gate, RenderGate::Dirty);
    c.iterations = 100;
    c.gate.mark_clean();
    c.apply(Command::FewerIterations, 0, true);
    assert_eq!(c.iterations, 100);
    assert_eq!(c.gate, RenderGate::Clean);
    c.iterations = u32::MAX - 50;
    c.apply(Command::MoreIterations, 0, true);
    assert_eq!(c.iterations, u32::MAX - 50);
    assert_eq!(c.gate, RenderGate::Clean);
}

#[test]
fn save_and_load_leave_the_gate() {
    let mut c = clean();
    assert_eq!(c.apply(Command::Save, 0, true), Effect::Save);
    assert_eq!(c.gate, RenderGate::Clean);
    assert_eq!(c.apply(Command::Load, 0, true), Effect::Load);
    assert_eq!(c.gate, RenderGate::Clean);
    c.restore(250);
    assert_eq!(c.iterations, 250);
    assert_eq!(c.gate, RenderGate::Dirty);
}
