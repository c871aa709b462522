//! Which movement keys the free-look camera sees held.
use vstd::prelude::*;
use crate::frame_loop::Key;

verus! {

/// A direction the free-look camera can be pushed in.
#[derive(Clone, Copy, Debug, PartialEq, Eq, Structural)]
pub enum MovementKey {
    Forward,
    Backward,
    Left,
    Right,
    Up,
    Down,
}

/// Which movement keys are held.
#[derive(Clone, Copy, Debug, PartialEq, Eq, Structural)]
pub struct MovementKeys {
    pub is_forward_pressed: bool,
    pub is_backward_pressed: bool,
    pub is_left_pressed: bool,
    pub is_right_pressed: bool,
    pub is_up_pressed: bool,
    pub is_down_pressed: bool,
}

/// The movement a key stands for: WASD or the arrows, space for up, left
/// control for down.
pub fn movement_key(key: Key) -> (r: Option<MovementKey>)
    ensures
        r == match key {
            Key::W | Key::Up => Some(MovementKey::Forward),
            Key::A | Key::Left => Some(MovementKey::Left),
            Key::S | Key::Down => Some(MovementKey::Backward),
            Key::D | Key::Right => Some(MovementKey::Right),
            Key::Space => Some(MovementKey::Up),
            Key::LControl => Some(MovementKey::Down),
            _ => None,
        },
{
    match key {
        Key::W | Key::Up => Some(MovementKey::Forward),
        Key::A | Key::Left => Some(MovementKey::Left),
        Key::S | Key::Down => Some(MovementKey::Backward),
        Key::D | Key::Right => Some(MovementKey::Right),
        Key::Space => Some(MovementKey::Up),
        Key::LControl => Some(MovementKey::Down),
        _ => None,
    }
}

/// One axis of movement: +1 where the positive key is held (it wins over
/// the negative one), -1 where only the negative key is, else 0.
pub open spec fn axis(positive: bool, negative: bool) -> int {
    if positive {
        1
    } else if negative {
        -1
    } else {
        0
    }
}

impl MovementKeys {
    pub fn new() -> (r: Self)
        ensures
            r == (MovementKeys {
                is_forward_pressed: false,
                is_backward_pressed: false,
                is_left_pressed: false,
                is_right_pressed: false,
                is_up_pressed: false,
                is_down_pressed: false,
            }),
    {
        MovementKeys {
            is_forward_pressed: false,
            is_backward_pressed: false,
            is_left_pressed: false,
            is_right_pressed: false,
            is_up_pressed: false,
            is_down_pressed: false,
        }
    }

    /// Records a key going down (`pressed`) or up.
    pub fn set(&mut self, key: MovementKey, pressed: bool)
        ensures
            *final(self) == match key {
                MovementKey::Forward => MovementKeys { is_forward_pressed: pressed, ..*old(self) },
                MovementKey::Backward => MovementKeys { is_backward_pressed: pressed, ..*old(self) },
                MovementKey::Left => MovementKeys { is_left_pressed: pressed, ..*old(self) },
                MovementKey::Right => MovementKeys { is_right_pressed: pressed, ..*old(self) },
                MovementKey::Up => MovementKeys { is_up_pressed: pressed, ..*old(self) },
                MovementKey::Down => MovementKeys { is_down_pressed: pressed, ..*old(self) },
            },
    {
        match key {
            MovementKey::Forward => self.is_forward_pressed = pressed,
            MovementKey::Backward => self.is_backward_pressed = pressed,
            MovementKey::Left => self.is_left_pressed = pressed,
            MovementKey::Right => self.is_right_pressed = pressed,
            MovementKey::Up => self.is_up_pressed = pressed,
            MovementKey::Down => self.is_down_pressed = pressed,
        }
    }

    /// The requested movement along (forward, right, up).
    pub fn axes(&self) -> (r: (i8, i8, i8))
        ensures
            r.0 == axis(self.is_forward_pressed, self.is_backward_pressed),
            r.1 == axis(self.is_right_pressed, self.is_left_pressed),
            r.2 == axis(self.is_up_pressed, self.is_down_pressed),
    {
        let forward: i8 = if self.is_forward_pressed {
            1
        } else if self.is_backward_pressed {
            -1
        } else {
            0
        };
        let right: i8 = if self.is_right_pressed {
            1
        } else if self.is_left_pressed {
            -1
        } else {
            0
        };
        let up: i8 = if self.is_up_pressed {
            1
        } else if self.is_down_pressed {
            -1
        } else {
            0
        };
        (forward, right, up)
    }
}

} // verus!
