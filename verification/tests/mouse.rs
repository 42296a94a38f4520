use scrap_input::cursor::{Action, Cursor};
use scrap_input::event::{InputEvent, OnFailure, Plan, Step};
use scrap_input::mouse::{EvdevInputMouse, MouseButton};

fn motion(dx: i32, dy: i32) -> Vec<InputEvent> {
    vec![InputEvent { kind: 2, code: 0, value: dx }, InputEvent { kind: 2, code: 1, value: dy }]
}

fn marker() -> Vec<InputEvent> {
    vec![InputEvent { kind: 0, code: 0, value: 0 }]
}

fn best_effort(events: Vec<InputEvent>) -> Vec<Step> {
    vec![
        Step::Emit { events, on_failure: OnFailure::Ignore },
        Step::Emit { events: marker(), on_failure: OnFailure::Ignore },
    ]
}

fn written_when_all_fails(plan: Plan) -> (Vec<Vec<InputEvent>>, bool) {
    let mut cursor = Cursor::new(plan);
    let mut written = Vec::new();
    loop {
        let outcome = match cursor.current() {
            Action::Emit(events) => {
                written.push(events.clone());
                false
            }
            Action::Settle(_) => true,
            Action::Finished { delivered } => return (written, delivered),
        };
        cursor.report(outcome);
    }
}

#[test]
fn the_pointer_starts_at_the_centre() {
    let mouse = EvdevInputMouse::new(1920, 1080);
    assert_eq!(mouse.position(), (960, 540));
    assert_eq!(mouse.width(), 1920);
    assert_eq!(mouse.height(), 1080);
    assert_eq!(EvdevInputMouse::new(0, 0).position(), (0, 0));
    assert_eq!(EvdevInputMouse::new(5, 3).position(), (2, 1));
    let largest = i32::MAX as usize;
    assert_eq!(EvdevInputMouse::new(largest, largest).position(), (i32::MAX / 2, i32::MAX / 2));
}

#[test]
fn pointer_tracking_after_absolute_then_relative_motion() {
    let mut mouse = EvdevInputMouse::new(1920, 1080);
    let first = mouse.mouse_move_to(100, 50);
    assert_eq!(first.steps, best_effort(motion(100 - 960, 50 - 540)));
    assert_eq!(mouse.position(), (100, 50));
    let second = mouse.mouse_move_relative(10, -5);
    assert_eq!(second.steps, best_effort(motion(10, -5)));
    assert_eq!(mouse.position(), (110, 45));
}

#[test]
fn pointer_tracking_clamps_to_small_bounds() {
    let mut mouse = EvdevInputMouse::new(105, 48);
    let _ = mouse.mouse_move_to(100, 50);
    assert_eq!(mouse.position(), (100, 50));
    let second = mouse.mouse_move_relative(10, -5);
    assert_eq!(second.steps, best_effort(motion(10, -5)));
    assert_eq!(mouse.position(), (105, 45));
}

#[test]
fn moving_to_where_the_pointer_is_writes_nothing() {
    let mut mouse = EvdevInputMouse::new(1920, 1080);
    assert!(mouse.mouse_move_to(960, 540).is_empty());
    assert_eq!(mouse.position(), (960, 540));
}

#[test]
fn moving_along_one_axis_still_writes_both() {
    let mut mouse = EvdevInputMouse::new(1920, 1080);
    assert_eq!(mouse.mouse_move_to(961, 540).steps, best_effort(motion(1, 0)));
    assert_eq!(mouse.mouse_move_relative(0, -7).steps, best_effort(motion(0, -7)));
    assert_eq!(mouse.position(), (961, 533));
}

#[test]
fn an_absolute_position_is_trusted_beyond_the_bounds() {
    let mut mouse = EvdevInputMouse::new(100, 100);
    let _ = mouse.mouse_move_to(5000, -20);
    assert_eq!(mouse.position(), (5000, -20));
    let _ = mouse.mouse_move_relative(0, 1);
    assert_eq!(mouse.position(), (100, 0));
}

#[test]
fn relative_motion_is_clamped_on_both_sides() {
    let mut mouse = EvdevInputMouse::new(100, 80);
    let plan = mouse.mouse_move_relative(-1000, 1000);
    assert_eq!(plan.steps, best_effort(motion(-1000, 1000)));
    assert_eq!(mouse.position(), (0, 80));
    let _ = mouse.mouse_move_relative(100, -80);
    assert_eq!(mouse.position(), (100, 0));
    let _ = mouse.mouse_move_relative(i32::MAX, i32::MIN);
    assert_eq!(mouse.position(), (100, 0));
}

#[test]
fn relative_motion_by_nothing_changes_nothing() {
    let mut mouse = EvdevInputMouse::new(100, 100);
    let _ = mouse.mouse_move_to(500, 500);
    assert!(mouse.mouse_move_relative(0, 0).is_empty());
    assert_eq!(mouse.position(), (500, 500));
}

#[test]
fn the_longest_motion_that_fits_is_taken() {
    let mut mouse = EvdevInputMouse::new(0, 0);
    let plan = mouse.mouse_move_to(i32::MAX, i32::MIN);
    assert_eq!(plan.steps, best_effort(motion(i32::MAX, i32::MIN)));
    assert_eq!(mouse.position(), (i32::MAX, i32::MIN));
}

#[test]
fn every_mapped_button_has_the_code_the_kernel_gives_it() {
    let mouse = EvdevInputMouse::new(10, 10);
    let mapped = [
        (MouseButton::Left, evdev::Key::BTN_LEFT),
        (MouseButton::Right, evdev::Key::BTN_RIGHT),
        (MouseButton::Middle, evdev::Key::BTN_MIDDLE),
        (MouseButton::Back, evdev::Key::BTN_SIDE),
        (MouseButton::Forward, evdev::Key::BTN_EXTRA),
    ];
    for (button, native) in mapped {
        assert_eq!(mouse.map_enigo_button_to_evdev(button), Some(native.code()), "{button:?}");
    }
    assert_eq!(mouse.map_enigo_button_to_evdev(MouseButton::Left), Some(0x110));
    assert_eq!(mouse.map_enigo_button_to_evdev(MouseButton::Forward), Some(0x114));
}

#[test]
fn scroll_buttons_have_no_code_and_write_nothing() {
    let mouse = EvdevInputMouse::new(10, 10);
    for button in [
        MouseButton::ScrollUp,
        MouseButton::ScrollDown,
        MouseButton::ScrollLeft,
        MouseButton::ScrollRight,
    ] {
        assert_eq!(mouse.map_enigo_button_to_evdev(button), None);
        assert!(mouse.mouse_down(button).is_empty());
        assert!(mouse.mouse_up(button).is_empty());
        assert_eq!(mouse.mouse_click(button).steps, vec![Step::Settle { millis: 10 }]);
    }
}

#[test]
fn buttons_go_down_and_up_with_their_own_sync_marker() {
    let mouse = EvdevInputMouse::new(10, 10);
    assert_eq!(
        mouse.mouse_down(MouseButton::Right).steps,
        best_effort(vec![InputEvent { kind: 1, code: 0x111, value: 1 }])
    );
    assert_eq!(
        mouse.mouse_up(MouseButton::Right).steps,
        best_effort(vec![InputEvent { kind: 1, code: 0x111, value: 0 }])
    );
}

#[test]
fn a_click_presses_settles_and_releases() {
    let mouse = EvdevInputMouse::new(10, 10);
    let mut expected = best_effort(vec![InputEvent { kind: 1, code: 0x112, value: 1 }]);
    expected.push(Step::Settle { millis: 10 });
    expected.extend(best_effort(vec![InputEvent { kind: 1, code: 0x112, value: 0 }]));
    assert_eq!(mouse.mouse_click(MouseButton::Middle).steps, expected);
}

#[test]
fn mouse_requests_never_fail_and_write_everything() {
    let mut mouse = EvdevInputMouse::new(10, 10);
    let (written, delivered) = written_when_all_fails(mouse.mouse_click(MouseButton::Left));
    assert_eq!(written.len(), 4);
    assert!(delivered);
    let (written, delivered) = written_when_all_fails(mouse.mouse_move_relative(1, 1));
    assert_eq!(written, vec![motion(1, 1), marker()]);
    assert!(delivered);
    let (written, delivered) = written_when_all_fails(mouse.mouse_scroll_y(2));
    assert_eq!(written.len(), 2);
    assert!(delivered);
}

#[test]
fn scrolling_writes_the_wheel_axis() {
    let mouse = EvdevInputMouse::new(10, 10);
    assert_eq!(
        mouse.mouse_scroll_x(3).steps,
        best_effort(vec![InputEvent { kind: 2, code: 6, value: 3 }])
    );
    assert_eq!(
        mouse.mouse_scroll_y(-4).steps,
        best_effort(vec![InputEvent { kind: 2, code: 8, value: -4 }])
    );
    assert_eq!(
        mouse.mouse_scroll_y(0).steps,
        best_effort(vec![InputEvent { kind: 2, code: 8, value: 0 }])
    );
}

#[test]
fn scrolling_does_not_move_the_pointer() {
    let mouse = EvdevInputMouse::new(40, 20);
    let _ = mouse.mouse_scroll_x(5);
    let _ = mouse.mouse_scroll_y(5);
    let _ = mouse.mouse_click(MouseButton::Left);
    assert_eq!(mouse.position(), (20, 10));
}

#[test]
fn axis_codes_are_the_kernels() {
    let mouse = EvdevInputMouse::new(10, 10);
    let descriptor = mouse.descriptor();
    assert_eq!(descriptor.name, "RustDesk Virtual Mouse");
    assert_eq!(
        descriptor.keys,
        vec![
            evdev::Key::BTN_LEFT.code(),
            evdev::Key::BTN_RIGHT.code(),
            evdev::Key::BTN_MIDDLE.code(),
            evdev::Key::BTN_SIDE.code(),
            evdev::Key::BTN_EXTRA.code(),
        ]
    );
    assert_eq!(
        descriptor.relative_axes,
        vec![
            evdev::RelativeAxisType::REL_X.0,
            evdev::RelativeAxisType::REL_Y.0,
            evdev::RelativeAxisType::REL_WHEEL.0,
            evdev::RelativeAxisType::REL_HWHEEL.0,
        ]
    );
}
