use vstd::prelude::*;

use crate::input::Action;
use crate::lang::Direction;

verus! {

/// What a camera does with a mouse event.
#[derive(Debug, Clone, Copy, PartialEq, Eq, Structural)]
pub enum MouseResponse {
    /// Scroll input: change the field of view by the vertical offset.
    Zoom,
    /// Cursor motion while rotation is enabled: turn by the offsets.
    Rotate,
    /// Cursor motion while rotation is disabled: nothing changes.
    Ignore,
}

/// The basis vector a movement runs along.
#[derive(Debug, Clone, Copy, PartialEq, Eq, Structural)]
pub enum Axis {
    Front,
    Right,
}

/// The live state of the inputs a camera polls once per frame: the left mouse
/// button and the W, S, A and D keys.
#[derive(Debug, Clone, Copy, PartialEq, Eq, Structural)]
pub struct InputSnapshot {
    pub mouse_left: Action,
    pub key_w: Action,
    pub key_s: Action,
    pub key_a: Action,
    pub key_d: Action,
}

pub open spec fn mouse_response_spec(is_scroll: bool, rotate_enabled: bool) -> MouseResponse {
    if is_scroll {
        MouseResponse::Zoom
    } else if rotate_enabled {
        MouseResponse::Rotate
    } else {
        MouseResponse::Ignore
    }
}

/// Rotation is switched on when the button is found pressed and off when it is
/// found released.
pub open spec fn rotate_after(rotate_enabled: bool, button: Action) -> bool {
    match button {
        Action::Press => true,
        Action::Release => false,
        Action::Repeat => rotate_enabled,
    }
}

/// `seq![d]` if the key is held, else the empty sequence.
pub open spec fn if_held(key: Action, d: Direction) -> Seq<Direction> {
    if key == Action::Press {
        seq![d]
    } else {
        Seq::empty()
    }
}

/// The movements owed for the held keys, in the order W, S, A, D.
pub open spec fn held_directions_spec(s: InputSnapshot) -> Seq<Direction> {
    if_held(s.key_w, Direction::FORWARD) + if_held(s.key_s, Direction::BACKWARD) + if_held(
        s.key_a,
        Direction::LEFT,
    ) + if_held(s.key_d, Direction::RIGHT)
}

/// The axis a direction moves along, and whether it runs against that axis.
pub open spec fn axis_of(d: Direction) -> (Axis, bool) {
    match d {
        Direction::FORWARD => (Axis::Front, false),
        Direction::BACKWARD => (Axis::Front, true),
        Direction::LEFT => (Axis::Right, true),
        Direction::RIGHT => (Axis::Right, false),
    }
}

/// The axis and sign of a movement: forward and backward run along the front
/// vector, right and left along the right vector; backward and left are negated.
pub fn movement_axis(d: Direction) -> (r: (Axis, bool))
    ensures
        r == axis_of(d),
{
    match d {
        Direction::FORWARD => (Axis::Front, false),
        Direction::BACKWARD => (Axis::Front, true),
        Direction::LEFT => (Axis::Right, true),
        Direction::RIGHT => (Axis::Right, false),
    }
}

fn push_if_held(v: &mut Vec<Direction>, key: Action, d: Direction)
    ensures
        final(v)@ == old(v)@ + if_held(key, d),
{
    if key == Action::Press {
        v.push(d);
    }
    assert(final(v)@ =~= old(v)@ + if_held(key, d));
}

/// The movements owed for the held keys: one per held key, independently, in
/// the order W, S, A, D.
pub fn held_directions(s: &InputSnapshot) -> (r: Vec<Direction>)
    ensures
        r@ == held_directions_spec(*s),
{
    let mut r: Vec<Direction> = Vec::new();
    push_if_held(&mut r, s.key_w, Direction::FORWARD);
    push_if_held(&mut r, s.key_s, Direction::BACKWARD);
    push_if_held(&mut r, s.key_a, Direction::LEFT);
    push_if_held(&mut r, s.key_d, Direction::RIGHT);
    assert(r@ =~= held_directions_spec(*s));
    r
}

/// The input state of a first-person camera that is not geometry: whether
/// cursor motion rotates it, and whether its pitch is kept within bounds.
#[derive(Debug, Clone, Copy, PartialEq, Eq, Structural)]
pub struct CameraControls {
    pub rotate_enabled: bool,
    pub constrain_pitch: bool,
}

impl CameraControls {
    /// Rotation off, pitch constrained.
    pub fn new() -> (r: Self)
        ensures
            !r.rotate_enabled,
            r.constrain_pitch,
    {
        CameraControls { rotate_enabled: false, constrain_pitch: true }
    }

    /// What a mouse event does: scroll zooms, cursor motion rotates only while
    /// rotation is enabled.
    pub fn mouse_response(&self, is_scroll: bool) -> (r: MouseResponse)
        ensures
            r == mouse_response_spec(is_scroll, self.rotate_enabled),
    {
        if is_scroll {
            MouseResponse::Zoom
        } else if self.rotate_enabled {
            MouseResponse::Rotate
        } else {
            MouseResponse::Ignore
        }
    }

    /// The per-frame poll: follows the left button's press and release edges,
    /// and returns the movements owed for the held keys. Returns whether the
    /// rotation gate changed, with the movements.
    pub fn on_input(&mut self, s: &InputSnapshot) -> (r: (bool, Vec<Direction>))
        ensures
            final(self).rotate_enabled == rotate_after(old(self).rotate_enabled, s.mouse_left),
            final(self).constrain_pitch == old(self).constrain_pitch,
            r.0 == (final(self).rotate_enabled != old(self).rotate_enabled),
            r.1@ == held_directions_spec(*s),
    {
        let changed = match s.mouse_left {
            Action::Press => {
                if !self.rotate_enabled {
                    self.rotate_enabled = true;
                    true
                } else {
                    false
                }
            },
            Action::Release => {
                if self.rotate_enabled {
                    self.rotate_enabled = false;
                    true
                } else {
                    false
                }
            },
            Action::Repeat => false,
        };
        (changed, held_directions(s))
    }
}

} // verus!
