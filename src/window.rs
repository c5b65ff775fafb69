use vstd::prelude::*;

use crate::input::{is_quit_spec, InputControl, InputEvent, KeyEvent, MouseButtonEvent, MouseEvent};
use crate::registry::{all_delivered, occupied, Delivery, Registry};

verus! {

/// The two states of the frame loop. `Closing` is terminal.
#[derive(Debug, Clone, Copy, PartialEq, Eq, Structural)]
pub enum LoopState {
    Running,
    Closing,
}

/// A notification drained from the windowing backend, over cursor and scroll
/// coordinates of type `P`.
#[derive(Debug, Clone, Copy)]
pub enum RawEvent<P> {
    FramebufferSize(i32, i32),
    CursorPos(P, P),
    Scroll(P, P),
    MouseButton(MouseButtonEvent),
    Key(KeyEvent),
    Other,
}

/// What the frame loop does with one backend notification.
#[derive(Debug, Clone, Copy)]
pub enum Dispatch<P> {
    /// Resize the viewport to the new framebuffer size.
    Viewport(i32, i32),
    /// Broadcast a cursor-motion event whose offset is the position minus the
    /// reference on the x axis and the reference minus the position on the y
    /// axis (screen y grows downward, camera y upward).
    CursorMotion { x_pos: P, y_pos: P, x_ref: P, y_ref: P },
    /// Broadcast this mouse event to every controllable.
    Mouse(MouseEvent<P>),
    /// Broadcast this key event to every controllable.
    Keyboard(KeyEvent),
    /// Nothing to do.
    Ignore,
}

/// One step of a frame, in the order in which a frame runs them.
#[derive(Debug, Clone, Copy, PartialEq, Eq, Structural)]
pub enum FrameStep {
    /// Take the backend clock, set the delta time and the last frame time.
    UpdateTiming,
    /// Drain the pending backend events and dispatch each of them.
    DrainEvents,
    /// Let every controllable poll the live key and button state.
    PollInput,
    /// Call the caller's render callback.
    Render,
    /// Clear to the default colour (no render callback was given).
    DefaultClear,
    /// Swap the front and back buffers.
    Present,
    /// Let the backend collect new events for the next frame.
    PollBackend,
}

/// The last known cursor position, or the origin `(zero, zero)` if none is known.
pub open spec fn known_pos<P>(last: Option<(P, P)>, zero: P) -> (P, P) {
    match last {
        Some(p) => p,
        None => (zero, zero),
    }
}

/// What a backend notification becomes, given the last known cursor position.
pub open spec fn dispatch_of<P>(last: Option<(P, P)>, raw: RawEvent<P>, zero: P) -> Dispatch<P> {
    match raw {
        RawEvent::FramebufferSize(w, h) => Dispatch::Viewport(w, h),
        RawEvent::CursorPos(x, y) => {
            let r = match last {
                Some(p) => p,
                None => (x, y),
            };
            Dispatch::CursorMotion { x_pos: x, y_pos: y, x_ref: r.0, y_ref: r.1 }
        },
        RawEvent::Scroll(dx, dy) => Dispatch::Mouse(
            MouseEvent {
                x_pos: known_pos(last, zero).0,
                y_pos: known_pos(last, zero).1,
                x_offset: dx,
                y_offset: dy,
                is_scroll: true,
                button_event: None,
            },
        ),
        RawEvent::MouseButton(b) => Dispatch::Mouse(
            MouseEvent {
                x_pos: known_pos(last, zero).0,
                y_pos: known_pos(last, zero).1,
                x_offset: zero,
                y_offset: zero,
                is_scroll: false,
                button_event: Some(b),
            },
        ),
        RawEvent::Key(e) => Dispatch::Keyboard(e),
        RawEvent::Other => Dispatch::Ignore,
    }
}

/// The last known cursor position after a notification.
pub open spec fn next_last_pos<P>(last: Option<(P, P)>, raw: RawEvent<P>) -> Option<(P, P)> {
    match raw {
        RawEvent::CursorPos(x, y) => Some((x, y)),
        _ => last,
    }
}

/// The loop state after a key event: a quit key closes the loop.
pub open spec fn next_state(state: LoopState, e: KeyEvent) -> LoopState {
    if is_quit_spec(e) {
        LoopState::Closing
    } else {
        state
    }
}

/// The steps of one frame, in order.
pub open spec fn frame_steps_spec(has_render: bool) -> Seq<FrameStep> {
    seq![
        FrameStep::UpdateTiming,
        FrameStep::DrainEvents,
        FrameStep::PollInput,
        if has_render {
            FrameStep::Render
        } else {
            FrameStep::DefaultClear
        },
        FrameStep::Present,
        FrameStep::PollBackend,
    ]
}

/// The frame loop without its backend: whether it runs, the registered
/// controllables, how backend notifications become events, and their dispatch.
/// The backend itself and the clock are driven by the caller.
pub struct FrameLoop<P, C> {
    state: LoopState,
    /// The last known cursor position; unset until the first cursor motion.
    last_mouse_pos: Option<(P, P)>,
    controls: Registry<C>,
}

impl<P, C> FrameLoop<P, C> {
    /// Whether the loop runs or is closing.
    pub closed spec fn loop_state(&self) -> LoopState {
        self.state
    }

    /// The last known cursor position.
    pub closed spec fn cursor(&self) -> Option<(P, P)> {
        self.last_mouse_pos
    }

    /// The registered controllables.
    pub closed spec fn registry(&self) -> Registry<C> {
        self.controls
    }
}

impl<P: Copy, C> FrameLoop<P, C> {
    pub fn new() -> (r: Self)
        ensures
            r.loop_state() == LoopState::Running,
            r.cursor() is None,
            r.registry()@ == Seq::<Option<C>>::empty(),
    {
        FrameLoop { state: LoopState::Running, last_mouse_pos: None, controls: Registry::new() }
    }

    /// Adds a controllable after those already registered; it takes part in
    /// dispatch from the next event on.
    pub fn register(&mut self, c: C) -> (h: usize)
        requires
            old(self).registry()@.len() < usize::MAX,
        ensures
            h == old(self).registry()@.len(),
            final(self).registry()@ == old(self).registry()@.push(Some(c)),
            final(self).loop_state() == old(self).loop_state(),
            final(self).cursor() == old(self).cursor(),
    {
        self.controls.register(c)
    }

    pub fn state(&self) -> (r: LoopState)
        ensures
            r == self.loop_state(),
    {
        self.state
    }

    pub fn last_mouse_pos(&self) -> (r: Option<(P, P)>)
        ensures
            r == self.cursor(),
    {
        self.last_mouse_pos
    }

    pub fn controls(&self) -> (r: &Registry<C>)
        ensures
            *r == self.registry(),
    {
        &self.controls
    }

    /// Mutable access to the controllables, for code outside the frame loop
    /// (to take one out and put it back, or to register more).
    pub fn controls_mut(&mut self) -> (r: &mut Registry<C>)
        ensures
            *r == old(self).registry(),
            final(self).registry() == *final(r),
            final(self).loop_state() == old(self).loop_state(),
            final(self).cursor() == old(self).cursor(),
    {
        &mut self.controls
    }

    pub fn is_running(&self) -> (r: bool)
        ensures
            r == (self.loop_state() == LoopState::Running),
    {
        self.state == LoopState::Running
    }

    /// Called at each iteration boundary with whether the backend reports a
    /// close request; returns whether the next frame runs.
    pub fn begin_tick(&mut self, close_requested: bool) -> (r: bool)
        ensures
            final(self).loop_state() == (if close_requested {
                LoopState::Closing
            } else {
                old(self).loop_state()
            }),
            final(self).cursor() == old(self).cursor(),
            final(self).registry() == old(self).registry(),
            r == (final(self).loop_state() == LoopState::Running),
    {
        if close_requested {
            self.state = LoopState::Closing;
        }
        self.state == LoopState::Running
    }

    /// Turns one backend notification into what is to be dispatched, updating
    /// the last known cursor position. `zero` is the origin of the coordinate
    /// type.
    pub fn normalize(&mut self, raw: RawEvent<P>, zero: P) -> (r: Dispatch<P>)
        ensures
            r == dispatch_of(old(self).cursor(), raw, zero),
            final(self).cursor() == next_last_pos(old(self).cursor(), raw),
            final(self).loop_state() == old(self).loop_state(),
            final(self).registry() == old(self).registry(),
    {
        let (px, py) = match self.last_mouse_pos {
            Some(p) => p,
            None => (zero, zero),
        };
        match raw {
            RawEvent::FramebufferSize(w, h) => Dispatch::Viewport(w, h),
            RawEvent::CursorPos(x, y) => {
                let (rx, ry) = match self.last_mouse_pos {
                    Some(p) => p,
                    None => (x, y),
                };
                self.last_mouse_pos = Some((x, y));
                Dispatch::CursorMotion { x_pos: x, y_pos: y, x_ref: rx, y_ref: ry }
            },
            RawEvent::Scroll(dx, dy) => Dispatch::Mouse(
                MouseEvent {
                    x_pos: px,
                    y_pos: py,
                    x_offset: dx,
                    y_offset: dy,
                    is_scroll: true,
                    button_event: None,
                },
            ),
            RawEvent::MouseButton(b) => Dispatch::Mouse(
                MouseEvent {
                    x_pos: px,
                    y_pos: py,
                    x_offset: zero,
                    y_offset: zero,
                    is_scroll: false,
                    button_event: Some(b),
                },
            ),
            RawEvent::Key(e) => Dispatch::Keyboard(e),
            RawEvent::Other => Dispatch::Ignore,
        }
    }

    /// Broadcasts a mouse event to the controllables in registration order;
    /// returns the handles of the objects called, in registration order.
    pub fn mouse_event<S, T: Copy>(&mut self, e: MouseEvent<P>, delta_time: T) -> (r: Vec<usize>) where
        C: InputControl<P, S, T>,
        ensures
            r@ == occupied(old(self).registry()@),
            all_delivered(old(self).registry()@, final(self).registry()@, Delivery::<P, S>::Mouse(e), delta_time),
            final(self).loop_state() == old(self).loop_state(),
            final(self).cursor() == old(self).cursor(),
    {
        self.controls.broadcast(Delivery::<P, S>::Mouse(e), delta_time)
    }

    /// Closes the loop on the quit key, then broadcasts the key event to the
    /// controllables in registration order; returns the handles of the objects
    /// called, in registration order.
    pub fn keyboard_event<S, T: Copy>(&mut self, e: KeyEvent, delta_time: T) -> (r: Vec<usize>) where
        C: InputControl<P, S, T>,
        ensures
            r@ == occupied(old(self).registry()@),
            final(self).loop_state() == next_state(old(self).loop_state(), e),
            all_delivered(old(self).registry()@, final(self).registry()@, Delivery::<P, S>::Keyboard(e), delta_time),
            final(self).cursor() == old(self).cursor(),
    {
        if e.is_quit() {
            self.state = LoopState::Closing;
        }
        self.controls.broadcast(Delivery::<P, S>::Keyboard(e), delta_time)
    }

    /// Lets every controllable poll the live input state, in registration order;
    /// returns the handles of the objects called, in registration order.
    pub fn process_input<S, T: Copy>(&mut self, input: &S, delta_time: T) -> (r: Vec<usize>) where
        C: InputControl<P, S, T>,
        ensures
            r@ == occupied(old(self).registry()@),
            all_delivered(old(self).registry()@, final(self).registry()@, Delivery::<P, S>::Poll(input), delta_time),
            final(self).loop_state() == old(self).loop_state(),
            final(self).cursor() == old(self).cursor(),
    {
        self.controls.broadcast(Delivery::<P, S>::Poll(input), delta_time)
    }
}

impl<P: Copy, S, T: Copy, C: InputControl<P, S, T>> InputEvent<P, S, T> for FrameLoop<P, C> {
    fn mouse_event(&mut self, event: MouseEvent<P>, delta_time: T) {
        let _ = FrameLoop::mouse_event::<S, T>(self, event, delta_time);
    }

    fn keyboard_event(&mut self, event: KeyEvent, delta_time: T) {
        let _ = FrameLoop::keyboard_event::<S, T>(self, event, delta_time);
    }
}

/// The steps of one frame, in order; the render step is the caller's callback
/// when there is one and the default clear otherwise.
pub fn frame_steps(has_render: bool) -> (r: Vec<FrameStep>)
    ensures
        r@ == frame_steps_spec(has_render),
{
    let draw = if has_render {
        FrameStep::Render
    } else {
        FrameStep::DefaultClear
    };
    let r = vec![
        FrameStep::UpdateTiming,
        FrameStep::DrainEvents,
        FrameStep::PollInput,
        draw,
        FrameStep::Present,
        FrameStep::PollBackend,
    ];
    assert(r@ =~= frame_steps_spec(has_render));
    r
}

/// The first cursor motion after start-up is its own reference: its offset is
/// zero whatever the absolute position.
pub proof fn lemma_first_motion_is_seeded<P>(x: P, y: P, zero: P)
    ensures
        dispatch_of(None, RawEvent::CursorPos(x, y), zero) == (Dispatch::CursorMotion {
            x_pos: x,
            y_pos: y,
            x_ref: x,
            y_ref: y,
        }),
        next_last_pos(None, RawEvent::CursorPos(x, y)) == Some((x, y)),
{
}

/// Every later cursor motion is measured against the position of the one
/// before it.
pub proof fn lemma_motion_measured_from_previous<P>(
    last: Option<(P, P)>,
    x0: P,
    y0: P,
    x1: P,
    y1: P,
    zero: P,
)
    ensures
        dispatch_of(
            next_last_pos(last, RawEvent::CursorPos(x0, y0)),
            RawEvent::CursorPos(x1, y1),
            zero,
        ) == (Dispatch::CursorMotion { x_pos: x1, y_pos: y1, x_ref: x0, y_ref: y0 }),
{
}

/// Closing is terminal: no key event brings the loop back to running.
pub proof fn lemma_closing_is_terminal(e: KeyEvent)
    ensures
        next_state(LoopState::Closing, e) == LoopState::Closing,
{
}

} // verus!
