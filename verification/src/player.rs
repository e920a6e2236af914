//! Rules of the player-controlled actor: which way the keys push it, when it
//! jumps, and when the mouse cursor is caught or let go.
//!
//! The host reads the keys and the events and moves the body; what to do
//! about them is decided here.

use vstd::prelude::*;

verus! {

/// Share of its horizontal velocity, in percent, that the player keeps per
/// tick while no movement key is held.
pub const FRICTION_PERCENT: u32 = 85;

/// Furthest the view may be tilted up or down, in thousandths of a radian.
pub const PITCH_LIMIT: u32 = 1500;

/// The keys as they stand in one tick.
#[derive(Clone, Copy, Debug, PartialEq, Eq, Structural)]
pub struct MoveInput {
    pub right: bool,
    pub left: bool,
    pub backward: bool,
    pub forward: bool,
    /// The jump key went down in this tick.
    pub jump: bool,
}

/// What becomes of the body's horizontal velocity in a tick.
#[derive(Clone, Copy, Debug, PartialEq, Eq, Structural)]
pub enum Drive {
    /// Walk at full speed along `strafe` times the body's right axis plus
    /// `advance` times its forward axis.
    Walk { strafe: i8, advance: i8 },
    /// Keep `percent` hundredths of the velocity.
    Slow { percent: u32 },
}

/// How the host moves the player's body in a tick.
#[derive(Clone, Copy, Debug, PartialEq, Eq, Structural)]
pub struct Locomotion {
    /// The body is in the air: gravity is added to its vertical velocity.
    pub apply_gravity: bool,
    /// The body leaves the floor with its jump velocity.
    pub jump: bool,
    pub drive: Drive,
}

/// Where the mouse cursor is and who has it.
#[derive(Clone, Copy, Debug, PartialEq, Eq, Structural)]
pub enum MouseMode {
    Visible,
    Hidden,
    Captured,
    Confined,
    ConfinedHidden,
}

/// An input event, as far as the player cares about it.
#[derive(Clone, Copy, Debug, PartialEq, Eq, Structural)]
pub enum InputEvent {
    /// The mouse moved.
    MouseMotion,
    /// A key went down or came up; `escape` says whether it was the escape
    /// key.
    Key { escape: bool, pressed: bool },
    /// Anything else.
    Other,
}

/// What the host does about an input event.
#[derive(Clone, Copy, Debug, PartialEq, Eq, Structural)]
pub enum InputResponse {
    /// Turn the body and tilt the view by what the mouse moved, the tilt held
    /// within [`PITCH_LIMIT`] either way.
    Look,
    /// Put the mouse cursor into this mode.
    SetMouseMode { mode: MouseMode },
    /// Nothing to do.
    Nothing,
}

/// The push along one axis: one key pushes up, the other down, and both or
/// neither cancel out.
pub open spec fn axis(up: bool, down: bool) -> int {
    (if up { 1int } else { 0int }) - (if down { 1int } else { 0int })
}

/// How the body moves in a tick with these keys, on or off the floor.
///
/// Gravity pulls whenever the body is off the floor, and a jump starts only
/// from the floor. The keys push sideways by right less left and lengthways
/// by backward less forward; where that leaves no push at all the body slows
/// down.
pub open spec fn locomotion(keys: MoveInput, on_floor: bool) -> Locomotion {
    Locomotion {
        apply_gravity: !on_floor,
        jump: keys.jump && on_floor,
        drive: if axis(keys.right, keys.left) == 0 && axis(keys.backward, keys.forward) == 0 {
            Drive::Slow { percent: FRICTION_PERCENT }
        } else {
            Drive::Walk {
                strafe: axis(keys.right, keys.left) as i8,
                advance: axis(keys.backward, keys.forward) as i8,
            }
        },
    }
}

/// The mode the escape key switches to: it lets a captured cursor go, and
/// captures it from any other mode.
pub open spec fn toggled(mode: MouseMode) -> MouseMode {
    if mode == MouseMode::Captured {
        MouseMode::Visible
    } else {
        MouseMode::Captured
    }
}

/// What an input event calls for while the cursor is in `mode`: mouse motion
/// turns the view, the escape key going down toggles the capture, and nothing
/// else matters.
pub open spec fn response(event: InputEvent, mode: MouseMode) -> InputResponse {
    match event {
        InputEvent::MouseMotion => InputResponse::Look,
        InputEvent::Key { escape, pressed } => if escape && pressed {
            InputResponse::SetMouseMode { mode: toggled(mode) }
        } else {
            InputResponse::Nothing
        },
        InputEvent::Other => InputResponse::Nothing,
    }
}

fn push(up: bool, down: bool) -> (pushed: i8)
    ensures
        pushed == axis(up, down),
        -1 <= pushed <= 1,
{
    if up == down {
        0
    } else if up {
        1
    } else {
        -1
    }
}

/// One physics tick of the player: how the host moves the body, given the
/// keys and whether the body stands on the floor. See [`locomotion`].
pub fn physics_process(keys: MoveInput, on_floor: bool) -> (plan: Locomotion)
    ensures
        plan == locomotion(keys, on_floor),
        !(plan.apply_gravity && plan.jump),
        plan.drive matches Drive::Walk { strafe, advance } ==> -1 <= strafe <= 1 && -1 <= advance
            <= 1 && (strafe != 0 || advance != 0),
{
    let strafe: i8 = push(keys.right, keys.left);
    let advance: i8 = push(keys.backward, keys.forward);
    let drive = if strafe == 0 && advance == 0 {
        Drive::Slow { percent: FRICTION_PERCENT }
    } else {
        Drive::Walk { strafe, advance }
    };
    Locomotion { apply_gravity: !on_floor, jump: keys.jump && on_floor, drive }
}

/// What the host does about an input event while the cursor is in `mode`.
/// See [`response`].
pub fn input(event: InputEvent, mode: MouseMode) -> (answer: InputResponse)
    ensures
        answer == response(event, mode),
{
    match event {
        InputEvent::MouseMotion => InputResponse::Look,
        InputEvent::Key { escape, pressed } => {
            if escape && pressed {
                if mode == MouseMode::Captured {
                    InputResponse::SetMouseMode { mode: MouseMode::Visible }
                } else {
                    InputResponse::SetMouseMode { mode: MouseMode::Captured }
                }
            } else {
                InputResponse::Nothing
            }
        },
        InputEvent::Other => InputResponse::Nothing,
    }
}

} // verus!
