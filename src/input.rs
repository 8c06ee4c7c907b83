//! Pointer state from the host's mouse input.
use vstd::prelude::*;

verus! {

/// A mouse button.
#[derive(Clone, Copy, Debug, PartialEq, Eq, Structural)]
pub enum MouseButton {
    Left,
    Right,
    Middle,
}

/// A turn of the mouse wheel by one line.
#[derive(Clone, Copy, Debug, PartialEq, Eq, Structural)]
pub enum WheelStep {
    Up,
    Down,
}

/// What the host reports of the mouse on one poll: the movement and which
/// buttons and wheel directions are active.
#[derive(Clone, Copy, Debug, PartialEq, Eq, Structural)]
pub struct MouseInput {
    pub dx: i16,
    pub dy: i16,
    pub left: bool,
    pub right: bool,
    pub middle: bool,
    pub wheel_up: bool,
    pub wheel_down: bool,
}

/// The pointer as the player sees it.
#[derive(Clone, Copy, Debug, PartialEq, Eq, Structural, Default)]
pub struct MouseState {
    pub x: i16,
    pub y: i16,
    pub dx: i16,
    pub dy: i16,
    pub button: Option<MouseButton>,
    pub wheel: Option<WheelStep>,
}

/// A coordinate moved and kept between zero and the screen's extent (the
/// extent wins where it is below zero).
pub open spec fn clamped(p: i16, d: i16, extent: i16) -> i16 {
    let moved = p as int + d as int;
    let low = if moved < 0 { 0 } else { moved };
    (if low > extent { extent as int } else { low }) as i16
}

fn clamp_axis(p: i16, d: i16, extent: i16) -> (r: i16)
    ensures
        r == clamped(p, d, extent),
{
    let moved: i32 = p as i32 + d as i32;
    let low: i32 = if moved < 0 { 0 } else { moved };
    if low > extent as i32 {
        extent
    } else {
        low as i16
    }
}

impl MouseState {
    /// The pointer after a poll on a screen of this extent: moved by the
    /// reported movement and kept on the screen; the left button wins over the
    /// right and the right over the middle; the wheel turns up before down.
    pub fn from_context(&self, input: &MouseInput, screen_width: i16, screen_height: i16) -> (r: MouseState)
        ensures
            r.x == clamped(self.x, input.dx, screen_width),
            r.y == clamped(self.y, input.dy, screen_height),
            r.dx == input.dx,
            r.dy == input.dy,
            r.button == if input.left {
                Some(MouseButton::Left)
            } else if input.right {
                Some(MouseButton::Right)
            } else if input.middle {
                Some(MouseButton::Middle)
            } else {
                None
            },
            r.wheel == if input.wheel_up {
                Some(WheelStep::Up)
            } else if input.wheel_down {
                Some(WheelStep::Down)
            } else {
                None
            },
    {
        MouseState {
            x: clamp_axis(self.x, input.dx, screen_width),
            y: clamp_axis(self.y, input.dy, screen_height),
            dx: input.dx,
            dy: input.dy,
            button: if input.left {
                Some(MouseButton::Left)
            } else if input.right {
                Some(MouseButton::Right)
            } else if input.middle {
                Some(MouseButton::Middle)
            } else {
                None
            },
            wheel: if input.wheel_up {
                Some(WheelStep::Up)
            } else if input.wheel_down {
                Some(WheelStep::Down)
            } else {
                None
            },
        }
    }
}

} // verus!
