use std::cell::RefCell;
use std::rc::Rc;
use std::sync::Arc;

use render_control::camera::{
    held_directions, movement_axis, Axis, CameraControls, InputSnapshot, MouseResponse,
};
use render_control::input::{
    Action, InputControl, InputEvent, Key, KeyEvent, Modifiers, MouseButton, MouseButtonEvent, MouseEvent,
    KEY_A, KEY_D, KEY_ESCAPE, KEY_S, KEY_W, MOUSE_BUTTON_LEFT,
};
use render_control::lang::{Direction, ObjectMethods};
use render_control::registry::{Delivery, Registry};
use render_control::window::{frame_steps, Dispatch, FrameLoop, FrameStep, LoopState, RawEvent};

struct Recorder {
    id: u32,
    log: Rc<RefCell<Vec<(u32, &'static str)>>>,
}

impl InputControl<f32, InputSnapshot, f64> for Recorder {
    fn on_mouse(&mut self, _mouse: MouseEvent<f32>, _delta_time: f64) {
        self.log.borrow_mut().push((self.id, "mouse"));
    }

    fn on_keyboard(&mut self, _key: KeyEvent, _delta_time: f64) {
        self.log.borrow_mut().push((self.id, "key"));
    }

    fn on_input(&mut self, _input: &InputSnapshot, _delta_time: f64) {
        self.log.borrow_mut().push((self.id, "poll"));
    }
}

fn recorder(id: u32, log: &Rc<RefCell<Vec<(u32, &'static str)>>>) -> Recorder {
    Recorder { id, log: log.clone() }
}

fn key(code: i32, action: Action) -> KeyEvent {
    KeyEvent(Key(code), 0, action, Modifiers(0))
}

fn snapshot(left: Action, w: Action, s: Action, a: Action, d: Action) -> InputSnapshot {
    InputSnapshot { mouse_left: left, key_w: w, key_s: s, key_a: a, key_d: d }
}

fn idle() -> InputSnapshot {
    snapshot(Action::Release, Action::Release, Action::Release, Action::Release, Action::Release)
}

fn scroll_event(dy: f32) -> MouseEvent<f32> {
    MouseEvent {
        x_pos: 0.0,
        y_pos: 0.0,
        x_offset: 0.0,
        y_offset: dy,
        is_scroll: true,
        button_event: None,
    }
}

#[test]
fn construct_shared_handles() {
    let r: Rc<u32> = ObjectMethods::construct(7);
    assert_eq!(*r, 7);
    let a: Arc<String> = ObjectMethods::construct(String::from("camera"));
    assert_eq!(a.as_str(), "camera");
}

#[test]
fn registry_hands_out_handles_in_order() {
    let mut reg: Registry<&str> = Registry::new();
    assert_eq!(reg.len(), 0);
    assert_eq!(reg.register("a"), 0);
    assert_eq!(reg.register("b"), 1);
    assert_eq!(reg.register("c"), 2);
    assert_eq!(reg.len(), 3);
    assert_eq!(reg.dispatch_order(), vec![0, 1, 2]);
    assert_eq!(reg.get(1), Some(&"b"));
    assert_eq!(reg.get(3), None);
    assert!(reg.is_available(2));
    assert!(!reg.is_available(3));
}

#[test]
fn registry_take_and_put_back() {
    let mut reg: Registry<u32> = Registry::new();
    reg.register(10);
    reg.register(20);
    assert_eq!(reg.take(0), Some(10));
    assert!(!reg.is_available(0));
    assert_eq!(reg.get(0), None);
    assert_eq!(reg.take(0), None);
    assert_eq!(reg.take(5), None);
    assert_eq!(reg.dispatch_order(), vec![1]);
    // an occupied slot or an unknown handle hands the value back
    assert_eq!(reg.put_back(1, 99), Some(99));
    assert_eq!(reg.put_back(7, 99), Some(99));
    assert_eq!(reg.put_back(0, 11), None);
    assert_eq!(reg.get(0), Some(&11));
    assert_eq!(reg.get(1), Some(&20));
    assert_eq!(reg.dispatch_order(), vec![0, 1]);
}

#[test]
fn dispatch_follows_registration_order_every_tick() {
    let log = Rc::new(RefCell::new(Vec::new()));
    let mut fl: FrameLoop<f32, Recorder> = FrameLoop::new();
    fl.register(recorder(1, &log));
    fl.register(recorder(2, &log));
    fl.register(recorder(3, &log));
    for _ in 0..2 {
        let called = fl.mouse_event::<InputSnapshot, f64>(scroll_event(1.0), 0.016);
        assert_eq!(called, vec![0, 1, 2]);
    }
    let ids: Vec<u32> = log.borrow().iter().map(|e| e.0).collect();
    assert_eq!(ids, vec![1, 2, 3, 1, 2, 3]);
}

#[test]
fn each_kind_of_dispatch_reaches_every_controllable() {
    let log = Rc::new(RefCell::new(Vec::new()));
    let mut fl: FrameLoop<f32, Recorder> = FrameLoop::new();
    fl.register(recorder(1, &log));
    fl.register(recorder(2, &log));
    let called = fl.keyboard_event::<InputSnapshot, f64>(key(KEY_W, Action::Press), 0.5);
    assert_eq!(called, vec![0, 1]);
    let called = fl.process_input(&idle(), 0.5);
    assert_eq!(called, vec![0, 1]);
    assert_eq!(
        *log.borrow(),
        vec![(1, "key"), (2, "key"), (1, "poll"), (2, "poll")]
    );
}

#[test]
fn dispatch_skips_a_taken_controllable() {
    let log = Rc::new(RefCell::new(Vec::new()));
    let mut reg: Registry<Recorder> = Registry::new();
    reg.register(recorder(1, &log));
    reg.register(recorder(2, &log));
    reg.register(recorder(3, &log));
    let held = reg.take(1).unwrap();
    let called = reg.broadcast::<f32, InputSnapshot, f64>(Delivery::Mouse(scroll_event(1.0)), 0.1);
    assert_eq!(called, vec![0, 2]);
    assert_eq!(*log.borrow(), vec![(1, "mouse"), (3, "mouse")]);
    assert_eq!(reg.put_back(1, held).is_none(), true);
    assert_eq!(reg.dispatch_order(), vec![0, 1, 2]);
}

#[test]
fn first_cursor_motion_has_zero_offset() {
    let mut fl: FrameLoop<f32, Recorder> = FrameLoop::new();
    match fl.normalize(RawEvent::CursorPos(312.5, 97.0), 0.0) {
        Dispatch::CursorMotion { x_pos, y_pos, x_ref, y_ref } => {
            assert_eq!(x_pos - x_ref, 0.0);
            assert_eq!(y_ref - y_pos, 0.0);
        }
        _ => panic!("expected a cursor motion"),
    }
    assert_eq!(fl.last_mouse_pos(), Some((312.5, 97.0)));
}

#[test]
fn later_cursor_motion_is_measured_from_previous() {
    let mut fl: FrameLoop<f32, Recorder> = FrameLoop::new();
    fl.normalize(RawEvent::CursorPos(100.0, 100.0), 0.0);
    match fl.normalize(RawEvent::CursorPos(150.0, 80.0), 0.0) {
        Dispatch::CursorMotion { x_pos, y_pos, x_ref, y_ref } => {
            assert_eq!(x_pos - x_ref, 50.0);
            // screen y grows downward: moving up gives a positive offset
            assert_eq!(y_ref - y_pos, 20.0);
        }
        _ => panic!("expected a cursor motion"),
    }
    assert_eq!(fl.last_mouse_pos(), Some((150.0, 80.0)));
}

#[test]
fn scroll_uses_last_known_position() {
    let mut fl: FrameLoop<f32, Recorder> = FrameLoop::new();
    match fl.normalize(RawEvent::Scroll(0.0, 2.0), 0.0) {
        Dispatch::Mouse(e) => {
            assert_eq!((e.x_pos, e.y_pos), (0.0, 0.0));
            assert_eq!((e.x_offset, e.y_offset), (0.0, 2.0));
            assert!(e.is_scroll);
            assert_eq!(e.button_event, None);
        }
        _ => panic!("expected a mouse event"),
    }
    fl.normalize(RawEvent::CursorPos(40.0, 30.0), 0.0);
    match fl.normalize(RawEvent::Scroll(1.0, -3.0), 0.0) {
        Dispatch::Mouse(e) => {
            assert_eq!((e.x_pos, e.y_pos), (40.0, 30.0));
            assert_eq!((e.x_offset, e.y_offset), (1.0, -3.0));
            assert!(e.is_scroll);
        }
        _ => panic!("expected a mouse event"),
    }
    assert_eq!(fl.last_mouse_pos(), Some((40.0, 30.0)));
}

#[test]
fn mouse_button_carries_its_transition() {
    let mut fl: FrameLoop<f32, Recorder> = FrameLoop::new();
    fl.normalize(RawEvent::CursorPos(5.0, 6.0), 0.0);
    let b = MouseButtonEvent(MouseButton(MOUSE_BUTTON_LEFT), Action::Press, Modifiers(1));
    match fl.normalize(RawEvent::MouseButton(b), 0.0) {
        Dispatch::Mouse(e) => {
            assert_eq!((e.x_pos, e.y_pos), (5.0, 6.0));
            assert_eq!((e.x_offset, e.y_offset), (0.0, 0.0));
            assert!(!e.is_scroll);
            assert_eq!(e.button_event, Some(b));
        }
        _ => panic!("expected a mouse event"),
    }
}

#[test]
fn other_notifications() {
    let mut fl: FrameLoop<f32, Recorder> = FrameLoop::new();
    assert!(matches!(
        fl.normalize(RawEvent::FramebufferSize(1600, 1200), 0.0),
        Dispatch::Viewport(1600, 1200)
    ));
    assert!(matches!(fl.normalize(RawEvent::Other, 0.0), Dispatch::Ignore));
    let e = key(KEY_ESCAPE, Action::Press);
    assert!(matches!(fl.normalize(RawEvent::Key(e), 0.0), Dispatch::Keyboard(k) if k == e));
    assert_eq!(fl.last_mouse_pos(), None);
    assert_eq!(fl.state(), LoopState::Running);
}

#[test]
fn quit_key_closes_the_loop() {
    let log = Rc::new(RefCell::new(Vec::new()));
    let mut fl: FrameLoop<f32, Recorder> = FrameLoop::new();
    fl.register(recorder(1, &log));
    fl.keyboard_event::<InputSnapshot, f64>(key(KEY_ESCAPE, Action::Release), 0.0);
    assert!(fl.is_running());
    fl.keyboard_event::<InputSnapshot, f64>(key(KEY_W, Action::Press), 0.0);
    assert!(fl.is_running());
    fl.keyboard_event::<InputSnapshot, f64>(key(KEY_ESCAPE, Action::Press), 0.0);
    assert_eq!(fl.state(), LoopState::Closing);
    // the quit key still reaches the controllables
    assert_eq!(log.borrow().len(), 3);
    assert!(!fl.begin_tick(false));
    fl.keyboard_event::<InputSnapshot, f64>(key(KEY_ESCAPE, Action::Release), 0.0);
    assert_eq!(fl.state(), LoopState::Closing);
}

#[test]
fn quit_key_detection() {
    assert!(key(KEY_ESCAPE, Action::Press).is_quit());
    assert!(!key(KEY_ESCAPE, Action::Repeat).is_quit());
    assert!(!key(KEY_ESCAPE, Action::Release).is_quit());
    assert!(!key(KEY_A, Action::Press).is_quit());
}

#[test]
fn backend_close_request_ends_the_loop() {
    let mut fl: FrameLoop<f32, Recorder> = FrameLoop::new();
    assert!(fl.begin_tick(false));
    assert!(fl.begin_tick(false));
    assert!(!fl.begin_tick(true));
    assert!(!fl.begin_tick(false));
    assert_eq!(fl.state(), LoopState::Closing);
}

#[test]
fn frame_step_order() {
    assert_eq!(
        frame_steps(true),
        vec![
            FrameStep::UpdateTiming,
            FrameStep::DrainEvents,
            FrameStep::PollInput,
            FrameStep::Render,
            FrameStep::Present,
            FrameStep::PollBackend,
        ]
    );
    assert_eq!(frame_steps(false)[3], FrameStep::DefaultClear);
    assert_eq!(frame_steps(false).len(), 6);
}

#[test]
fn motion_without_rotation_is_ignored() {
    let c = CameraControls::new();
    assert!(!c.rotate_enabled);
    assert!(c.constrain_pitch);
    assert_eq!(c.mouse_response(false), MouseResponse::Ignore);
    assert_eq!(c.mouse_response(true), MouseResponse::Zoom);
    let r = CameraControls { rotate_enabled: true, constrain_pitch: true };
    assert_eq!(r.mouse_response(false), MouseResponse::Rotate);
    assert_eq!(r.mouse_response(true), MouseResponse::Zoom);
}

#[test]
fn left_button_edges_toggle_rotation() {
    let mut c = CameraControls::new();
    let pressed = snapshot(Action::Press, Action::Release, Action::Release, Action::Release, Action::Release);
    let (changed, moves) = c.on_input(&pressed);
    assert!(changed);
    assert!(c.rotate_enabled);
    assert!(moves.is_empty());
    let (changed, _) = c.on_input(&pressed);
    assert!(!changed);
    assert!(c.rotate_enabled);
    let (changed, _) = c.on_input(&idle());
    assert!(changed);
    assert!(!c.rotate_enabled);
    let (changed, _) = c.on_input(&idle());
    assert!(!changed);
    assert!(!c.rotate_enabled);
}

#[test]
fn pressed_button_and_held_w_move_forward() {
    let mut c = CameraControls::new();
    let s = snapshot(Action::Press, Action::Press, Action::Release, Action::Release, Action::Release);
    let (changed, moves) = c.on_input(&s);
    assert!(changed);
    assert!(c.rotate_enabled);
    assert_eq!(moves, vec![Direction::FORWARD]);
    assert_eq!(movement_axis(moves[0]), (Axis::Front, false));
}

#[test]
fn held_keys_each_give_a_movement() {
    let s = snapshot(Action::Release, Action::Press, Action::Release, Action::Release, Action::Press);
    assert_eq!(held_directions(&s), vec![Direction::FORWARD, Direction::RIGHT]);
    let all = snapshot(Action::Release, Action::Press, Action::Press, Action::Press, Action::Press);
    assert_eq!(
        held_directions(&all),
        vec![Direction::FORWARD, Direction::BACKWARD, Direction::LEFT, Direction::RIGHT]
    );
    assert!(held_directions(&idle()).is_empty());
    let repeat = snapshot(Action::Release, Action::Repeat, Action::Release, Action::Release, Action::Release);
    assert!(held_directions(&repeat).is_empty());
}

#[test]
fn movement_axes_and_signs() {
    assert_eq!(movement_axis(Direction::FORWARD), (Axis::Front, false));
    assert_eq!(movement_axis(Direction::BACKWARD), (Axis::Front, true));
    assert_eq!(movement_axis(Direction::LEFT), (Axis::Right, true));
    assert_eq!(movement_axis(Direction::RIGHT), (Axis::Right, false));
}

#[test]
fn key_codes() {
    assert_eq!((KEY_W, KEY_S, KEY_A, KEY_D, KEY_ESCAPE), (87, 83, 65, 68, 256));
    assert_eq!(MOUSE_BUTTON_LEFT, 0);
}

#[test]
fn frame_loop_skips_a_controllable_taken_out() {
    let log = Rc::new(RefCell::new(Vec::new()));
    let mut fl: FrameLoop<f32, Recorder> = FrameLoop::new();
    fl.register(recorder(1, &log));
    fl.register(recorder(2, &log));
    fl.register(recorder(3, &log));
    let held = fl.controls_mut().take(0).unwrap();
    let called = fl.keyboard_event::<InputSnapshot, f64>(key(KEY_ESCAPE, Action::Press), 0.0);
    assert_eq!(called, vec![1, 2]);
    assert_eq!(*log.borrow(), vec![(2, "key"), (3, "key")]);
    // the quit key is still intercepted
    assert_eq!(fl.state(), LoopState::Closing);
    assert!(fl.controls_mut().put_back(0, held).is_none());
    assert_eq!(fl.controls().dispatch_order(), vec![0, 1, 2]);
    let called = fl.process_input(&idle(), 0.0);
    assert_eq!(called, vec![0, 1, 2]);
}

#[test]
fn input_event_passes_events_on_in_order() {
    let log = Rc::new(RefCell::new(Vec::new()));
    let mut fl: FrameLoop<f32, Recorder> = FrameLoop::new();
    fl.register(recorder(1, &log));
    fl.register(recorder(2, &log));
    InputEvent::<f32, InputSnapshot, f64>::mouse_event(&mut fl, scroll_event(-1.0), 0.25);
    InputEvent::<f32, InputSnapshot, f64>::keyboard_event(&mut fl, key(KEY_D, Action::Repeat), 0.25);
    assert_eq!(
        *log.borrow(),
        vec![(1, "mouse"), (2, "mouse"), (1, "key"), (2, "key")]
    );
    assert!(fl.is_running());
}

#[test]
fn mouse_events_compare_by_fields() {
    let a = scroll_event(1.0);
    let b = scroll_event(2.0);
    assert_eq!(a, scroll_event(1.0));
    assert_ne!(a, b);
    assert!(a < b);
    assert!(key(KEY_A, Action::Press) < key(KEY_D, Action::Press));
}
