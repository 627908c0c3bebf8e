//! The decisions of an interactive session: which commands change the view,
//! the iteration cap and its bounds, the scale of a step, and the render gate.
//! The view's centre and zoom are coordinates that the caller holds; a command
//! tells it how to move them.

use vstd::prelude::*;

use crate::gate::RenderGate;

verus! {

/// The iteration cap a session starts with.
pub const DEFAULT_ITERATIONS: u32 = 50;

/// How much one command raises or lowers the iteration cap.
pub const ITERATION_STEP: u32 = 100;

/// The cap is lowered only while it is above this.
pub const MIN_ITERATIONS: u32 = 100;

/// A discrete request from the input side.
#[derive(Clone, Copy, Debug, PartialEq, Eq, Structural)]
pub enum Command {
    ZoomOut,
    ZoomIn,
    PanUp,
    PanDown,
    PanLeft,
    PanRight,
    MoreIterations,
    FewerIterations,
    Save,
    Load,
}

/// What a command leaves to the caller. `Move` shifts the view by whole
/// steps of the current scale: `zoom` steps of the side length (positive
/// widens the view), `x` and `y` steps of the centre.
#[derive(Clone, Copy, Debug, PartialEq, Eq, Structural)]
pub enum Effect {
    Nothing,
    Move { zoom: i8, x: i8, y: i8 },
    Save,
    Load,
}

/// The exponent `e` of the step scale `10^e` for a view whose side length
/// has decimal order of magnitude `order`: orders 0 and -1 step by 1, any
/// other by `10^(order + 1)` (the exponent stops at `i32::MAX`).
pub open spec fn scale_exponent_of(order: i32) -> i32 {
    if order == 0 || order == -1 {
        0
    } else if order == i32::MAX {
        i32::MAX
    } else {
        (order + 1) as i32
    }
}

/// The iteration cap after `cmd`.
pub open spec fn next_iterations(iterations: u32, cmd: Command) -> u32 {
    match cmd {
        Command::MoreIterations => if iterations <= u32::MAX - ITERATION_STEP {
            (iterations + ITERATION_STEP) as u32
        } else {
            iterations
        },
        Command::FewerIterations => if iterations > MIN_ITERATIONS {
            (iterations - ITERATION_STEP) as u32
        } else {
            iterations
        },
        _ => iterations,
    }
}

/// `cmd` changes the view; zooming in is refused once the side length is no
/// longer positive.
pub open spec fn changes_view(cmd: Command, zoom_positive: bool, iterations: u32) -> bool {
    match cmd {
        Command::ZoomIn => zoom_positive,
        Command::MoreIterations => iterations <= u32::MAX - ITERATION_STEP,
        Command::FewerIterations => iterations > MIN_ITERATIONS,
        Command::Save => false,
        Command::Load => false,
        _ => true,
    }
}

/// What the caller is left to do for `cmd`.
pub open spec fn effect_of(cmd: Command, zoom_positive: bool) -> Effect {
    match cmd {
        Command::ZoomOut => Effect::Move { zoom: 1, x: 0, y: 0 },
        Command::ZoomIn => if zoom_positive {
            Effect::Move { zoom: -1i8, x: 0, y: 0 }
        } else {
            Effect::Nothing
        },
        Command::PanUp => Effect::Move { zoom: 0, x: 0, y: -1i8 },
        Command::PanDown => Effect::Move { zoom: 0, x: 0, y: 1 },
        Command::PanLeft => Effect::Move { zoom: 0, x: -1i8, y: 0 },
        Command::PanRight => Effect::Move { zoom: 0, x: 1, y: 0 },
        Command::Save => Effect::Save,
        Command::Load => Effect::Load,
        _ => Effect::Nothing,
    }
}

/// The step scale's exponent for a view of decimal order of magnitude
/// `order`.
pub fn convert_order_of_magnitude(order: i32) -> (exponent: i32)
    ensures
        exponent == scale_exponent_of(order),
{
    match order {
        0 => 0,
        -1 => 0,
        _ => if order < i32::MAX {
            order + 1
        } else {
            i32::MAX
        },
    }
}

/// The integer part of a session's view state, with its render gate.
pub struct Controls {
    /// Maximum number of escape steps per point.
    pub iterations: u32,
    /// Steps of the view are multiples of `10^scale_exponent`.
    pub scale_exponent: i32,
    pub gate: RenderGate,
}

impl Controls {
    /// A new session: the default cap, unit steps, and a dirty gate.
    pub fn new() -> (c: Controls)
        ensures
            c.iterations == DEFAULT_ITERATIONS,
            c.scale_exponent == 0,
            c.gate == RenderGate::Dirty,
    {
        Controls { iterations: DEFAULT_ITERATIONS, scale_exponent: 0, gate: RenderGate::new() }
    }

    /// Handles one command for a view whose side length has decimal order of
    /// magnitude `order` and is positive when `zoom_positive`. The step scale
    /// follows `order`; a command that changes the view marks the render gate dirty,
    /// any other leaves it as it was.
    pub fn apply(&mut self, cmd: Command, order: i32, zoom_positive: bool) -> (effect: Effect)
        ensures
            effect == effect_of(cmd, zoom_positive),
            final(self).scale_exponent == scale_exponent_of(order),
            final(self).iterations == next_iterations(old(self).iterations, cmd),
            final(self).gate == (if changes_view(cmd, zoom_positive, old(self).iterations) {
                RenderGate::Dirty
            } else {
                old(self).gate
            }),
    {
        self.scale_exponent = convert_order_of_magnitude(order);
        match cmd {
            Command::ZoomOut => {
                self.gate.mark_dirty();
                Effect::Move { zoom: 1, x: 0, y: 0 }
            },
            Command::ZoomIn => {
                if zoom_positive {
                    self.gate.mark_dirty();
                    Effect::Move { zoom: -1, x: 0, y: 0 }
                } else {
                    Effect::Nothing
                }
            },
            Command::PanUp => {
                self.gate.mark_dirty();
                Effect::Move { zoom: 0, x: 0, y: -1 }
            },
            Command::PanDown => {
                self.gate.mark_dirty();
                Effect::Move { zoom: 0, x: 0, y: 1 }
            },
            Command::PanLeft => {
                self.gate.mark_dirty();
                Effect::Move { zoom: 0, x: -1, y: 0 }
            },
            Command::PanRight => {
                self.gate.mark_dirty();
                Effect::Move { zoom: 0, x: 1, y: 0 }
            },
            Command::MoreIterations => {
                if self.iterations <= u32::MAX - ITERATION_STEP {
                    self.iterations = self.iterations + ITERATION_STEP;
                    self.gate.mark_dirty();
                }
                Effect::Nothing
            },
            Command::FewerIterations => {
                if self.iterations > MIN_ITERATIONS {
                    self.iterations = self.iterations - ITERATION_STEP;
                    self.gate.mark_dirty();
                }
                Effect::Nothing
            },
            Command::Save => Effect::Save,
            Command::Load => Effect::Load,
        }
    }

    /// Takes the cap of a view that was loaded; the view changed, so the
    /// gate becomes dirty.
    pub fn restore(&mut self, iterations: u32)
        ensures
            final(self).iterations == iterations,
            final(self).scale_exponent == old(self).scale_exponent,
            final(self).gate == RenderGate::Dirty,
    {
        self.iterations = iterations;
        self.gate.mark_dirty();
    }
}

} // verus!
