use vstd::prelude::*;
use crate::timer::{fresh, Timer, TimerMode};
use crate::utils::{is_direction, Vec2};

verus! {

/// Number of colours in the cycle that an invincible player runs through.
/// Colour 0 is the plain one.
pub const RAINBOW_COLORS: usize = 22;

/// Period of the player's colour cycle, in nanoseconds.
pub const COLOR_CYCLE_PERIOD: u64 = 100_000_000;

/// The player. At most one is alive.
#[derive(Clone, Copy, Debug, PartialEq, Eq, Structural)]
pub struct Player {
    pub position: Vec2,
    pub timer: Timer,
    pub color_index: usize,
}

/// An enemy, roaming along a fixed direction.
#[derive(Clone, Copy, Debug, PartialEq, Eq, Structural)]
pub struct Enemy {
    pub position: Vec2,
    pub direction: Vec2,
}

/// A star, worth one point.
#[derive(Clone, Copy, Debug, PartialEq, Eq, Structural)]
pub struct Star {
    pub position: Vec2,
}

/// The pickup that makes the player invincible. At most one exists.
#[derive(Clone, Copy, Debug, PartialEq, Eq, Structural)]
pub struct Invinci {
    pub position: Vec2,
}

/// The coffee pickup. Once collected it lingers, flagged, until the star
/// spawner has seen the flag.
#[derive(Clone, Copy, Debug, PartialEq, Eq, Structural)]
pub struct Coffee {
    pub position: Vec2,
    pub collected: bool,
}

/// What the pointer is doing to a button.
#[derive(Clone, Copy, Debug, PartialEq, Eq, Structural)]
pub enum Interaction {
    Pressed,
    Hovered,
    Idle,
}

/// Which of its three colours a button shows.
#[derive(Clone, Copy, Debug, PartialEq, Eq, Structural)]
pub enum ButtonColor {
    Normal,
    Hovered,
    Pressed,
}

/// Movement keys that are held down.
#[derive(Clone, Copy, Debug, PartialEq, Eq, Structural)]
pub struct MovementKeys {
    pub left: bool,
    pub right: bool,
    pub up: bool,
    pub down: bool,
}

impl Player {
    /// The player as it enters the field: at the centre, its colour cycle at
    /// `color_index`.
    pub open spec fn at_start(color_index: usize) -> Player {
        Player {
            position: Vec2 { x: 0, y: 0 },
            timer: fresh(COLOR_CYCLE_PERIOD, TimerMode::Repeating),
            color_index,
        }
    }
}

impl Enemy {
    /// An enemy's direction has components of a unit vector's size at most.
    pub open spec fn wf(self) -> bool {
        is_direction(self.direction)
    }
}

/// The colour that a button shows under an interaction.
pub open spec fn color_under(interaction: Interaction) -> ButtonColor {
    match interaction {
        Interaction::Pressed => ButtonColor::Pressed,
        Interaction::Hovered => ButtonColor::Hovered,
        Interaction::Idle => ButtonColor::Normal,
    }
}

/// The colour that a button shows under an interaction.
pub fn button_color(interaction: Interaction) -> (color: ButtonColor)
    ensures
        color == color_under(interaction),
{
    match interaction {
        Interaction::Pressed => ButtonColor::Pressed,
        Interaction::Hovered => ButtonColor::Hovered,
        Interaction::Idle => ButtonColor::Normal,
    }
}

} // verus!
