use macro_recorder::actions::{
    Action, KeyState, MouseActionButton, MouseActionButtonState, MouseActionKind, MousePointKind,
    Point,
};
use macro_recorder::recorder::{
    actions_from_capture, combine_into_action_list, key_transition, KeyboardEvent, MouseEvent,
    WM_KEYDOWN, WM_KEYUP, WM_LBUTTONDOWN, WM_LBUTTONUP, WM_MOUSEMOVE, WM_MOUSEWHEEL,
    WM_RBUTTONDOWN, WM_SYSKEYDOWN, WM_SYSKEYUP,
};
use macro_recorder::settings::Settings;

fn kb(key_code: i32, down: bool, time: u32) -> KeyboardEvent {
    KeyboardEvent { key_code, down, time }
}

fn ms(message: u32, x: i32, y: i32, time: u32) -> MouseEvent {
    MouseEvent { message, point: Point { x, y }, mouse_data: 0, time }
}

#[test]
fn merge_orders_interleaved_streams() {
    let keyboard = vec![kb(0x41, true, 5), kb(0x41, false, 20)];
    let mouse = vec![ms(WM_MOUSEMOVE, 1, 1, 10), ms(WM_MOUSEMOVE, 2, 2, 15)];
    let settings = Settings::default();
    let actions = combine_into_action_list(&keyboard, &mouse, 0, 5, &settings, Point { x: 0, y: 0 });
    assert_eq!(
        actions,
        vec![
            Action::Delay(5),
            Action::Keyboard(0x41, KeyState::Down),
            Action::Delay(5),
            Action::Mouse(MouseActionKind::Moved(MousePointKind::To(Point { x: 1, y: 1 }))),
            Action::Delay(5),
            Action::Mouse(MouseActionKind::Moved(MousePointKind::To(Point { x: 2, y: 2 }))),
            Action::Delay(5),
            Action::Keyboard(0x41, KeyState::Up),
        ]
    );
}

#[test]
fn merge_puts_keyboard_first_on_equal_times() {
    let keyboard = vec![kb(0x42, true, 7)];
    let mouse = vec![ms(WM_LBUTTONDOWN, 3, 4, 7)];
    let actions =
        combine_into_action_list(&keyboard, &mouse, 7, 7, &Settings::default(), Point { x: 0, y: 0 });
    assert_eq!(
        actions,
        vec![
            Action::Keyboard(0x42, KeyState::Down),
            Action::Mouse(MouseActionKind::Button(MouseActionButton {
                point: Some(MousePointKind::To(Point { x: 3, y: 4 })),
                button: 1,
                state: MouseActionButtonState::Pressed,
            })),
        ]
    );
}

#[test]
fn offsets_follow_every_mouse_event() {
    let mut settings = Settings::default();
    settings.record_mouse_offsets = true;
    let mouse = vec![
        ms(WM_MOUSEMOVE, 110, 210, 0),
        ms(WM_RBUTTONDOWN, 115, 200, 0),
        ms(WM_LBUTTONUP, 115, 200, 0),
    ];
    let actions = combine_into_action_list(&vec![], &mouse, 0, 0, &settings, Point { x: 100, y: 200 });
    assert_eq!(
        actions,
        vec![
            Action::Mouse(MouseActionKind::Moved(MousePointKind::By(Point { x: 10, y: 10 }))),
            Action::Mouse(MouseActionKind::Button(MouseActionButton {
                point: Some(MousePointKind::By(Point { x: 5, y: -10 })),
                button: 2,
                state: MouseActionButtonState::Pressed,
            })),
            Action::Mouse(MouseActionKind::Button(MouseActionButton {
                point: Some(MousePointKind::By(Point { x: 0, y: 0 })),
                button: 1,
                state: MouseActionButtonState::Released,
            })),
        ]
    );
}

#[test]
fn wheel_delta_comes_from_high_word() {
    let mouse = vec![MouseEvent {
        message: WM_MOUSEWHEEL,
        point: Point { x: 1, y: 2 },
        mouse_data: (-120i32 as u32) << 16,
        time: 3,
    }];
    let actions = combine_into_action_list(&vec![], &mouse, 0, 3, &Settings::default(), Point { x: 0, y: 0 });
    assert_eq!(
        actions,
        vec![
            Action::Delay(3),
            Action::Mouse(MouseActionKind::Wheel(-120, Some(MousePointKind::To(Point { x: 1, y: 2 })))),
        ]
    );
}

#[test]
fn capture_with_fewer_than_two_keys_is_empty() {
    let mouse = vec![ms(WM_LBUTTONDOWN, 1, 1, 4)];
    let actions = actions_from_capture(&vec![kb(0x11, true, 9)], &mouse, Point { x: 0, y: 0 }, &Settings::default());
    assert!(actions.is_empty());
}

#[test]
fn capture_drops_stop_chord() {
    let keyboard = vec![kb(0x41, true, 10), kb(0x11, true, 30), kb(0x51, true, 31)];
    let actions = actions_from_capture(&keyboard, &vec![], Point { x: 0, y: 0 }, &Settings::default());
    assert_eq!(actions, vec![Action::Delay(10), Action::Keyboard(0x41, KeyState::Down)]);
}

#[test]
fn capture_of_only_stop_chord_is_empty() {
    let keyboard = vec![kb(0x11, true, 30), kb(0x51, true, 31)];
    let mouse = vec![ms(WM_MOUSEMOVE, 1, 1, 4)];
    let mut settings = Settings::default();
    settings.record_mouse_movement = false;
    let actions = actions_from_capture(&keyboard, &mouse, Point { x: 0, y: 0 }, &settings);
    assert!(actions.is_empty());
}

#[test]
fn capture_filters_moves_when_not_recorded() {
    let keyboard = vec![kb(0x11, true, 30), kb(0x51, true, 31)];
    let mouse = vec![ms(WM_MOUSEMOVE, 1, 1, 4), ms(WM_LBUTTONDOWN, 2, 2, 6), ms(WM_MOUSEMOVE, 3, 3, 8)];
    let mut settings = Settings::default();
    settings.record_mouse_movement = false;
    let actions = actions_from_capture(&keyboard, &mouse, Point { x: 0, y: 0 }, &settings);
    assert_eq!(
        actions,
        vec![
            Action::Delay(6),
            Action::Mouse(MouseActionKind::Button(MouseActionButton {
                point: Some(MousePointKind::To(Point { x: 2, y: 2 })),
                button: 1,
                state: MouseActionButtonState::Pressed,
            })),
        ]
    );
}

#[test]
fn capture_starts_at_earliest_event() {
    let keyboard = vec![kb(0x41, true, 12), kb(0x11, true, 30), kb(0x51, true, 31)];
    let mouse = vec![ms(WM_MOUSEMOVE, 1, 1, 8)];
    let actions = actions_from_capture(&keyboard, &mouse, Point { x: 0, y: 0 }, &Settings::default());
    assert_eq!(
        actions,
        vec![
            Action::Delay(8),
            Action::Mouse(MouseActionKind::Moved(MousePointKind::To(Point { x: 1, y: 1 }))),
            Action::Delay(4),
            Action::Keyboard(0x41, KeyState::Down),
        ]
    );
}

#[test]
fn key_messages() {
    assert_eq!(key_transition(WM_KEYDOWN), Some(true));
    assert_eq!(key_transition(WM_SYSKEYDOWN), Some(true));
    assert_eq!(key_transition(WM_KEYUP), Some(false));
    assert_eq!(key_transition(WM_SYSKEYUP), Some(false));
    assert_eq!(key_transition(0x0200), None);
}

#[test]
fn offsets_count_moves_that_are_not_recorded() {
    let mut settings = Settings::default();
    settings.record_mouse_offsets = true;
    settings.record_mouse_movement = false;
    let keyboard = vec![kb(0x11, true, 30), kb(0x51, true, 31)];
    let mouse = vec![ms(WM_MOUSEMOVE, 50, 50, 4), ms(WM_LBUTTONDOWN, 60, 60, 6)];
    let actions = actions_from_capture(&keyboard, &mouse, Point { x: 0, y: 0 }, &settings);
    assert_eq!(
        actions,
        vec![
            Action::Delay(6),
            Action::Mouse(MouseActionKind::Button(MouseActionButton {
                point: Some(MousePointKind::By(Point { x: 10, y: 10 })),
                button: 1,
                state: MouseActionButtonState::Pressed,
            })),
        ]
    );
}

#[test]
fn unrecorded_moves_add_no_delay() {
    let mut settings = Settings::default();
    settings.record_mouse_movement = false;
    let keyboard = vec![kb(0x41, true, 10), kb(0x41, false, 20)];
    let mouse = vec![ms(WM_MOUSEMOVE, 1, 1, 12), ms(WM_MOUSEMOVE, 2, 2, 15)];
    let actions = combine_into_action_list(&keyboard, &mouse, 0, 10, &settings, Point { x: 0, y: 0 });
    assert_eq!(
        actions,
        vec![
            Action::Delay(10),
            Action::Keyboard(0x41, KeyState::Down),
            Action::Delay(10),
            Action::Keyboard(0x41, KeyState::Up),
        ]
    );
}
