use vstd::prelude::*;

verus! {

/// What happened to a key or a button.
#[derive(Debug, Clone, Copy, PartialEq, Eq, Structural, PartialOrd)]
pub enum Action {
    Release,
    Press,
    Repeat,
}

/// A keyboard key, by the windowing backend's key code.
#[derive(Debug, Clone, Copy, PartialEq, Eq, Structural, PartialOrd)]
pub struct Key(pub i32);

/// A mouse button, by the windowing backend's button number.
#[derive(Debug, Clone, Copy, PartialEq, Eq, Structural, PartialOrd)]
pub struct MouseButton(pub i32);

/// Modifier-key flags (shift, control, alt, super, ...), as a bit set.
#[derive(Debug, Clone, Copy, PartialEq, Eq, Structural, PartialOrd)]
pub struct Modifiers(pub i32);

/// The platform-specific scancode of a key.
pub type Scancode = i32;

/// Backend key codes of the keys this layer reacts to.

pub const KEY_ESCAPE: i32 = 256;

pub const KEY_W: i32 = 87;

pub const KEY_S: i32 = 83;

pub const KEY_A: i32 = 65;

pub const KEY_D: i32 = 68;

pub const MOUSE_BUTTON_LEFT: i32 = 0;

/// A key transition: key, scancode, action and modifiers.
#[derive(Debug, Clone, Copy, PartialEq, Eq, Structural, PartialOrd)]
pub struct KeyEvent(pub Key, pub Scancode, pub Action, pub Modifiers);

/// A mouse-button transition: button, action and modifiers.
#[derive(Debug, Clone, Copy, PartialEq, Eq, Structural, PartialOrd)]
pub struct MouseButtonEvent(pub MouseButton, pub Action, pub Modifiers);

/// A mouse event over coordinates of type `P`: the cursor position, the offset
/// since the last known position, whether it comes from the scroll wheel, and
/// the button transition it carries, if any.
#[derive(Debug, Clone, Copy, PartialEq, PartialOrd)]
pub struct MouseEvent<P> {
    pub x_pos: P,
    pub y_pos: P,
    pub x_offset: P,
    pub y_offset: P,
    pub is_scroll: bool,
    pub button_event: Option<MouseButtonEvent>,
}

/// Whether a key event asks the application to quit: the escape key, pressed.
pub open spec fn is_quit_spec(e: KeyEvent) -> bool {
    e.0.0 == KEY_ESCAPE && e.2 == Action::Press
}

impl KeyEvent {
    /// Whether this event asks the application to quit.
    pub fn is_quit(&self) -> (r: bool)
        ensures
            r == is_quit_spec(*self),
    {
        self.0.0 == KEY_ESCAPE && self.2 == Action::Press
    }
}

} // verus!

verus! {

/// An object that reacts to input: discrete mouse and keyboard events, and a
/// once-per-frame poll of the live input state `S`. `P` is the coordinate type
/// of mouse events and `T` the type of the frame's delta time.
///
/// Each method comes with a predicate that relates the object after one call
/// to the object before it. It claims nothing unless an implementor states
/// more; callers generic over the implementor learn from it that the call was
/// made.
pub trait InputControl<P, S, T>: Sized {
    /// `self` is what `before` becomes on handling `mouse`.
    open spec fn mouse_handled(&self, before: Self, mouse: MouseEvent<P>, delta_time: T) -> bool {
        true
    }

    /// `self` is what `before` becomes on handling `key`.
    open spec fn keyboard_handled(&self, before: Self, key: KeyEvent, delta_time: T) -> bool {
        true
    }

    /// `self` is what `before` becomes on polling `input`.
    open spec fn input_handled(&self, before: Self, input: S, delta_time: T) -> bool {
        true
    }

    fn on_mouse(&mut self, mouse: MouseEvent<P>, delta_time: T)
        ensures
            final(self).mouse_handled(*old(self), mouse, delta_time),
    ;

    fn on_keyboard(&mut self, key: KeyEvent, delta_time: T)
        ensures
            final(self).keyboard_handled(*old(self), key, delta_time),
    ;

    fn on_input(&mut self, input: &S, delta_time: T)
        ensures
            final(self).input_handled(*old(self), *input, delta_time),
    ;
}

/// Something that takes the discrete input events drained from the backend
/// and passes them on, with the frame's delta time, to controllables that poll
/// input state of type `S`.
pub trait InputEvent<P, S, T> {
    fn mouse_event(&mut self, event: MouseEvent<P>, delta_time: T);

    fn keyboard_event(&mut self, event: KeyEvent, delta_time: T);
}

} // verus!
