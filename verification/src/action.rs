//! Named input intents.  The core never reads raw device state: each tick it
//! is handed the set of intents currently held, and steering derives a
//! desired direction offset from the four movement intents.

use vstd::prelude::*;
use crate::math::Vec2I;

verus! {

/// A named user intent, decoupled from any physical key.
#[derive(Clone, Copy, Debug, PartialEq, Eq, Structural)]
pub enum Action {
    Cancel,
    CloseMenu,
    Confirm,
    MoveDown,
    MoveLeft,
    MoveRight,
    MoveUp,
    OpenMenu,
}

/// The intents held during one tick.
#[derive(Clone, Copy, Debug, PartialEq, Eq, Structural, Default)]
pub struct Input {
    pub cancel: bool,
    pub close_menu: bool,
    pub confirm: bool,
    pub move_down: bool,
    pub move_left: bool,
    pub move_right: bool,
    pub move_up: bool,
    pub open_menu: bool,
    /// Readiness signal from the asset-loading collaborator.
    pub assets_loaded: bool,
}

/// Scale of a single axis contribution to the steering offset; the offset's
/// length carries no meaning, movement normalizes it.
pub const AXIS_MILLI: i64 = 1_000;

impl Input {
    /// Whether the given intent is held.
    pub fn pressed(&self, action: Action) -> (r: bool)
        ensures
            r == self.spec_pressed(action),
    {
        match action {
            Action::Cancel => self.cancel,
            Action::CloseMenu => self.close_menu,
            Action::Confirm => self.confirm,
            Action::MoveDown => self.move_down,
            Action::MoveLeft => self.move_left,
            Action::MoveRight => self.move_right,
            Action::MoveUp => self.move_up,
            Action::OpenMenu => self.open_menu,
        }
    }

    pub open spec fn spec_pressed(self, action: Action) -> bool {
        match action {
            Action::Cancel => self.cancel,
            Action::CloseMenu => self.close_menu,
            Action::Confirm => self.confirm,
            Action::MoveDown => self.move_down,
            Action::MoveLeft => self.move_left,
            Action::MoveRight => self.move_right,
            Action::MoveUp => self.move_up,
            Action::OpenMenu => self.open_menu,
        }
    }

    /// The sum of the active axis contributions, one `AXIS_MILLI` per held
    /// movement intent; opposite intents cancel.  Its normalization is the
    /// desired movement direction.
    pub open spec fn spec_steer_offset(self) -> Vec2I {
        Vec2I {
            x: ((if self.move_right { AXIS_MILLI as int } else { 0int }) - (if self.move_left {
                AXIS_MILLI as int
            } else {
                0int
            })) as i64,
            y: ((if self.move_up { AXIS_MILLI as int } else { 0int }) - (if self.move_down {
                AXIS_MILLI as int
            } else {
                0int
            })) as i64,
        }
    }

    /// Desired direction offset from the held movement intents.
    pub fn steer_offset(&self) -> (r: Vec2I)
        ensures
            r == self.spec_steer_offset(),
    {
        let mut x: i64 = 0;
        let mut y: i64 = 0;
        if self.move_up {
            y = y + AXIS_MILLI;
        }
        if self.move_down {
            y = y - AXIS_MILLI;
        }
        if self.move_left {
            x = x - AXIS_MILLI;
        }
        if self.move_right {
            x = x + AXIS_MILLI;
        }
        Vec2I { x, y }
    }
}

} // verus!
