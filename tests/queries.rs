use macro_recorder::actions::{
    Action, ImageInfo, KeyState, MouseActionButton, MouseActionButtonState, MouseActionKind,
    MousePointKind, PixelInfo, Point, RawScreenshot, RawScreenshotPair, GrayImageSerializable,
    FULL_SIMILARITY,
};
use macro_recorder::hotkeys::{hotkeys_pressed, HotkeyWatcher, WatcherStep};
use macro_recorder::images::{
    fast_find_image, find_pixel, image_condition, image_search_method, image_search_region,
    pixel_condition, pixel_search_region, Region, SearchMethod,
};
use macro_recorder::input::{
    inputs_for, keyboard_inputs, mouse_button_inputs, mouse_move_inputs, scroll_wheel_inputs,
    SyntheticInput, KEYEVENTF_KEYUP, MOUSEEVENTF_LEFTDOWN, MOUSEEVENTF_LEFTUP,
    MOUSEEVENTF_MIDDLEUP, MOUSEEVENTF_RIGHTDOWN, MOUSEEVENTF_WHEEL,
};

fn shot(width: usize, height: usize, x: i32, y: i32, pixels: Vec<u8>) -> RawScreenshot {
    RawScreenshot { pixels, width, height, x, y }
}

fn image_info(similarity: u32) -> ImageInfo {
    let color = shot(1, 1, 0, 0, vec![1, 2, 3, 255]);
    let gray = GrayImageSerializable { pixels: vec![2], width: 1, height: 1 };
    ImageInfo {
        screenshot_raw: Some(RawScreenshotPair { color, gray }),
        image_similarity: similarity,
        ..ImageInfo::default()
    }
}

#[test]
fn full_similarity_selects_exact_search() {
    let mut invoked = Vec::new();
    for similarity in [FULL_SIMILARITY, FULL_SIMILARITY - 1, 0] {
        invoked.push(image_search_method(&image_info(similarity)));
    }
    assert_eq!(invoked, vec![SearchMethod::Exact, SearchMethod::Approximate, SearchMethod::Approximate]);
    assert_eq!(image_search_method(&ImageInfo::default()), SearchMethod::NoImage);
}

#[test]
fn image_condition_thresholds() {
    let mut info = image_info(800_000);
    info.move_mouse_if_found = true;
    let at = Point { x: 4, y: 5 };
    let found = image_condition(&info, 800_000, at);
    assert!(found.holds);
    assert_eq!(found.move_to, Some(at));
    assert!(!image_condition(&info, 799_999, at).holds);
    info.check_if_not_found = true;
    let absent = image_condition(&info, 799_999, at);
    assert!(absent.holds);
    assert_eq!(absent.move_to, None);
    assert!(!image_condition(&info, 800_000, at).holds);
}

#[test]
fn pixel_condition_polarity() {
    let mut info = PixelInfo {
        color: (1, 2, 3),
        search_location_left_top: (10, 20),
        search_location_width_height: (30, 40),
        check_if_not_found: false,
        move_mouse_if_found: true,
    };
    let at = Some(Point { x: 11, y: 21 });
    assert_eq!(pixel_condition(&info, at).holds, true);
    assert_eq!(pixel_condition(&info, at).move_to, at);
    assert_eq!(pixel_condition(&info, None).holds, false);
    info.check_if_not_found = true;
    assert_eq!(pixel_condition(&info, None).holds, true);
    assert_eq!(pixel_condition(&info, at).holds, false);
    assert_eq!(pixel_condition(&info, at).move_to, None);
    assert_eq!(pixel_search_region(&info), Region { x1: 10, y1: 20, x2: 40, y2: 60 });
}

#[test]
fn image_region_needs_both_corner_and_size() {
    let mut info = image_info(FULL_SIMILARITY);
    assert_eq!(image_search_region(&info), None);
    info.search_location_left_top = Some((5, 6));
    assert_eq!(image_search_region(&info), None);
    info.search_location_width_height = Some((10, 20));
    assert_eq!(image_search_region(&info), Some(Region { x1: 5, y1: 6, x2: 15, y2: 26 }));
}

#[test]
fn find_pixel_returns_first_match_row_by_row() {
    // 3 x 2 pixels, blue-green-red-alpha; red (255, 0, 0) at (2, 0) and (1, 1)
    let pixels = vec![
        0, 0, 0, 255, 0, 0, 0, 255, 0, 0, 255, 255, //
        0, 0, 0, 255, 0, 0, 255, 255, 0, 0, 0, 255,
    ];
    let s = shot(3, 2, 100, 50, pixels);
    assert_eq!(find_pixel(&s, (255, 0, 0)), Some(Point { x: 102, y: 50 }));
    assert_eq!(find_pixel(&s, (0, 255, 0)), None);
}

#[test]
fn exact_search_finds_first_column_match() {
    // 3 x 3 screenshot, one byte value per pixel repeated 4 times
    let values = [1u8, 2, 3, 4, 9, 6, 7, 8, 9];
    let pixels: Vec<u8> = values.iter().flat_map(|v| [*v; 4]).collect();
    let s = shot(3, 3, 10, 20, pixels);
    let t = shot(1, 1, 0, 0, vec![9; 4]);
    // (1, 1) comes before (2, 2) column by column
    assert_eq!(fast_find_image(&t, &s), Some(Point { x: 11, y: 21 }));
    let t2 = shot(2, 1, 0, 0, vec![4, 4, 4, 4, 9, 9, 9, 9]);
    assert_eq!(fast_find_image(&t2, &s), Some(Point { x: 11, y: 21 }));
    let missing = shot(1, 1, 0, 0, vec![5; 4]);
    assert_eq!(fast_find_image(&missing, &s), None);
    let too_big = shot(4, 1, 0, 0, vec![1; 16]);
    assert_eq!(fast_find_image(&too_big, &s), None);
}

#[test]
fn rgba_conversion_swaps_red_and_blue() {
    let s = shot(2, 1, 3, 4, vec![1, 2, 3, 4, 5, 6, 7, 8]).to_rgba8();
    assert_eq!(s.pixels, vec![3, 2, 1, 4, 7, 6, 5, 8]);
    assert_eq!((s.width, s.height, s.x, s.y), (2, 1, 3, 4));
}

#[test]
fn mouse_button_plans() {
    let click = MouseActionButton {
        point: Some(MousePointKind::To(Point { x: 7, y: 8 })),
        button: 1,
        state: MouseActionButtonState::Clicked,
    };
    assert_eq!(
        mouse_button_inputs(&click),
        Some(vec![
            SyntheticInput::SetCursor(Point { x: 7, y: 8 }),
            SyntheticInput::Mouse { dx: 0, dy: 0, mouse_data: 0, flags: MOUSEEVENTF_LEFTDOWN },
            SyntheticInput::Mouse { dx: 0, dy: 0, mouse_data: 0, flags: MOUSEEVENTF_LEFTUP },
        ])
    );
    let press_by = MouseActionButton {
        point: Some(MousePointKind::By(Point { x: -3, y: 2 })),
        button: 2,
        state: MouseActionButtonState::Pressed,
    };
    assert_eq!(
        mouse_button_inputs(&press_by),
        Some(vec![SyntheticInput::Mouse { dx: -3, dy: 2, mouse_data: 0, flags: MOUSEEVENTF_RIGHTDOWN }])
    );
    let release_middle = MouseActionButton { point: None, button: 4, state: MouseActionButtonState::Released };
    assert_eq!(
        mouse_button_inputs(&release_middle),
        Some(vec![SyntheticInput::Mouse { dx: 0, dy: 0, mouse_data: 0, flags: MOUSEEVENTF_MIDDLEUP }])
    );
    let unknown = MouseActionButton { point: None, button: 5, state: MouseActionButtonState::Pressed };
    assert_eq!(mouse_button_inputs(&unknown), None);
}

#[test]
fn keyboard_and_wheel_plans() {
    assert_eq!(
        keyboard_inputs(0x41, KeyState::Pressed),
        vec![
            SyntheticInput::Key { vk: 0x41, flags: 0 },
            SyntheticInput::Key { vk: 0x41, flags: KEYEVENTF_KEYUP },
        ]
    );
    assert_eq!(keyboard_inputs(0x41, KeyState::Up), vec![SyntheticInput::Key { vk: 0x41, flags: KEYEVENTF_KEYUP }]);
    assert_eq!(
        scroll_wheel_inputs(-120, Some(MousePointKind::To(Point { x: 1, y: 1 }))),
        vec![
            SyntheticInput::SetCursor(Point { x: 1, y: 1 }),
            SyntheticInput::Mouse { dx: 0, dy: 0, mouse_data: -120i32 as u32, flags: MOUSEEVENTF_WHEEL },
        ]
    );
    assert_eq!(
        mouse_move_inputs(MousePointKind::By(Point { x: 5, y: -5 }), Point { x: 100, y: 100 }),
        vec![SyntheticInput::SetCursor(Point { x: 105, y: 95 })]
    );
    assert_eq!(
        inputs_for(&Action::Mouse(MouseActionKind::Moved(MousePointKind::To(Point { x: 3, y: 3 }))), Point { x: 0, y: 0 }),
        Some(vec![SyntheticInput::SetCursor(Point { x: 3, y: 3 })])
    );
    assert_eq!(inputs_for(&Action::Delay(5), Point { x: 0, y: 0 }), Some(vec![]));
}

#[test]
fn chord_needs_every_key() {
    assert!(hotkeys_pressed(&vec![true, true]));
    assert!(!hotkeys_pressed(&vec![true, false]));
}

#[test]
fn watcher_waits_for_release_unless_repeating() {
    let mut once = HotkeyWatcher::new(false);
    assert_eq!(once.poll(false, true), WatcherStep::Play);
    assert_eq!(once.poll(false, true), WatcherStep::Idle);
    assert_eq!(once.poll(false, false), WatcherStep::Idle);
    assert_eq!(once.poll(false, true), WatcherStep::Play);
    assert_eq!(once.poll(true, true), WatcherStep::Exit);

    let mut held = HotkeyWatcher::new(true);
    assert_eq!(held.poll(false, true), WatcherStep::Play);
    assert_eq!(held.poll(false, true), WatcherStep::Play);
    assert_eq!(held.poll(false, false), WatcherStep::Idle);
}
