use macro_recorder::actions::{
    Action, ImageInfo, KeyState, MouseActionButton, MouseActionButtonState, MouseActionKind,
    MousePointKind, PixelInfo, Point,
};
use macro_recorder::keycodes_to_string::{decimal_string, key_code_to_string, signed_string};

fn grid(a: Action) -> [String; 3] {
    a.get_grid_formatted()
}

#[test]
fn key_names() {
    assert_eq!(key_code_to_string(0x01), "Left");
    assert_eq!(key_code_to_string(0x0D), "Enter");
    assert_eq!(key_code_to_string(0xA2), "Left Control");
    assert_eq!(key_code_to_string(0x30), "0");
    assert_eq!(key_code_to_string(0x39), "9");
    assert_eq!(key_code_to_string(0x41), "A");
    assert_eq!(key_code_to_string(0x5A), "Z");
    assert_eq!(key_code_to_string(0x63), "Number Pad 3");
    assert_eq!(key_code_to_string(0x70), "F1");
    assert_eq!(key_code_to_string(0x87), "F24");
    assert_eq!(key_code_to_string(0x91), "Scroll");
    assert_eq!(key_code_to_string(0xFF), "Key Code: 255");
    assert_eq!(key_code_to_string(-7), "Key Code: -7");
}

#[test]
fn decimal_formatting() {
    assert_eq!(decimal_string(0), "0");
    assert_eq!(decimal_string(1234567890), "1234567890");
    assert_eq!(decimal_string(u64::MAX), u64::MAX.to_string());
    assert_eq!(signed_string(i32::MIN), i32::MIN.to_string());
    assert_eq!(signed_string(-45), "-45");
}

#[test]
fn grid_columns() {
    assert_eq!(grid(Action::Delay(250)), ["Delay", "250", ""]);
    assert_eq!(
        grid(Action::Mouse(MouseActionKind::Moved(MousePointKind::To(Point { x: 3, y: -4 })))),
        ["Mouse", "Moved To", "X = 3, Y = -4"]
    );
    assert_eq!(
        grid(Action::Mouse(MouseActionKind::Moved(MousePointKind::By(Point { x: 1, y: 2 })))),
        ["Mouse", "Changed By", "X = 1, Y = 2"]
    );
    assert_eq!(
        grid(Action::Mouse(MouseActionKind::Button(MouseActionButton {
            point: Some(MousePointKind::To(Point { x: 5, y: 6 })),
            button: 2,
            state: MouseActionButtonState::Clicked,
        }))),
        ["Mouse", "Button Right Clicked", "At X = 5, Y = 6"]
    );
    assert_eq!(
        grid(Action::Mouse(MouseActionKind::Button(MouseActionButton {
            point: None,
            button: 1,
            state: MouseActionButtonState::Pressed,
        }))),
        ["Mouse", "Button Left Down", "Current Position"]
    );
    assert_eq!(grid(Action::Mouse(MouseActionKind::Wheel(-240, None))), ["Mouse", "Wheel", "-2"]);
    assert_eq!(grid(Action::Mouse(MouseActionKind::Wheel(-100, None))), ["Mouse", "Wheel", "0"]);
    assert_eq!(grid(Action::Keyboard(0x41, KeyState::Pressed)), ["Keyboard", "Key A", "Pressed"]);
    let mut info = ImageInfo::default();
    info.move_mouse_if_found = true;
    assert_eq!(
        grid(Action::IfImage(info.clone())),
        ["If Image", "If image found", "Move mouse to center if found"]
    );
    info.check_if_not_found = true;
    info.move_mouse_if_found = false;
    assert_eq!(grid(Action::WaitForImage(info)), ["Wait For Image", "Wait until not found", ""]);
    let pixel = PixelInfo {
        color: (0, 0, 0),
        search_location_left_top: (0, 0),
        search_location_width_height: (1, 1),
        check_if_not_found: true,
        move_mouse_if_found: false,
    };
    assert_eq!(grid(Action::WaitForPixel(pixel)), ["Wait For Pixel", "Wait for no pixel", ""]);
    assert_eq!(grid(Action::IfPixel(pixel)), ["If pixel", "If pixel not found", ""]);
    assert_eq!(grid(Action::Repeat(0)), ["Repeat", "Forever", ""]);
    assert_eq!(grid(Action::Repeat(12)), ["Repeat", "12 Times", ""]);
    assert_eq!(grid(Action::Else), ["Else", "", ""]);
    assert_eq!(grid(Action::EndIf), ["End If", "", ""]);
    assert_eq!(grid(Action::EndRepeat), ["End Repeat", "", ""]);
    assert_eq!(grid(Action::Break), ["Break", "", ""]);
    assert_eq!(grid(Action::Play("macros/a.json".to_string())), ["Play", "macros/a.json", ""]);
}

#[test]
fn default_image_query_is_exact() {
    let info = ImageInfo::default();
    assert_eq!(info.image_similarity, macro_recorder::actions::FULL_SIMILARITY);
    assert!(info.screenshot_raw.is_none());
}
