use vstd::prelude::*;

use crate::actions::{
    Action, KeyState, MouseActionButton, MouseActionButtonState, MouseActionKind, MousePointKind,
    Point, VK_LBUTTON, VK_MBUTTON, VK_RBUTTON,
};

verus! {

pub const MOUSEEVENTF_LEFTDOWN: u32 = 0x0002;

pub const MOUSEEVENTF_LEFTUP: u32 = 0x0004;

pub const MOUSEEVENTF_RIGHTDOWN: u32 = 0x0008;

pub const MOUSEEVENTF_RIGHTUP: u32 = 0x0010;

pub const MOUSEEVENTF_MIDDLEDOWN: u32 = 0x0020;

pub const MOUSEEVENTF_MIDDLEUP: u32 = 0x0040;

pub const MOUSEEVENTF_WHEEL: u32 = 0x0800;

pub const KEYEVENTF_KEYUP: u32 = 0x0002;

/// One synthetic input for the operating system.
#[derive(Clone, Copy, Debug, PartialEq, Eq, Structural)]
pub enum SyntheticInput {
    /// Put the cursor at this absolute position.
    SetCursor(Point),
    /// A mouse input: relative motion, wheel data and event flags.
    Mouse { dx: i32, dy: i32, mouse_data: u32, flags: u32 },
    /// A keyboard input: virtual key and event flags.
    Key { vk: u16, flags: u32 },
}

/// The event flag of a mouse button going down or up; none for a code that is
/// not the left, right or middle button.
pub open spec fn button_flag(button: i32, down: bool) -> Option<u32> {
    if button == VK_LBUTTON {
        Some(if down { MOUSEEVENTF_LEFTDOWN } else { MOUSEEVENTF_LEFTUP })
    } else if button == VK_RBUTTON {
        Some(if down { MOUSEEVENTF_RIGHTDOWN } else { MOUSEEVENTF_RIGHTUP })
    } else if button == VK_MBUTTON {
        Some(if down { MOUSEEVENTF_MIDDLEDOWN } else { MOUSEEVENTF_MIDDLEUP })
    } else {
        None
    }
}

/// The relative motion that goes with an input: the offset of a `By` position.
pub open spec fn motion_of(p: Option<MousePointKind>) -> (i32, i32) {
    match p {
        Some(MousePointKind::By(q)) => (q.x, q.y),
        _ => (0, 0),
    }
}

/// An absolute position is reached by moving the cursor before the input.
pub open spec fn cursor_first(p: Option<MousePointKind>) -> Seq<SyntheticInput> {
    match p {
        Some(MousePointKind::To(q)) => seq![SyntheticInput::SetCursor(q)],
        _ => Seq::empty(),
    }
}

pub open spec fn mouse_input(p: Option<MousePointKind>, mouse_data: u32, flags: u32) -> SyntheticInput {
    SyntheticInput::Mouse { dx: motion_of(p).0, dy: motion_of(p).1, mouse_data, flags }
}

/// The inputs of a mouse button action: down, up, or a click (down then up).
pub open spec fn button_inputs(a: MouseActionButton) -> Option<Seq<SyntheticInput>> {
    match (button_flag(a.button, true), button_flag(a.button, false)) {
        (Some(down), Some(up)) => Some(
            cursor_first(a.point) + match a.state {
                MouseActionButtonState::Pressed => seq![mouse_input(a.point, 0, down)],
                MouseActionButtonState::Released => seq![mouse_input(a.point, 0, up)],
                MouseActionButtonState::Clicked => seq![
                    mouse_input(a.point, 0, down),
                    mouse_input(a.point, 0, up),
                ],
            },
        ),
        _ => None,
    }
}

/// The inputs of a key action: down, up, or a press (down then up).
pub open spec fn key_inputs(key_code: i32, state: KeyState) -> Seq<SyntheticInput> {
    let down = SyntheticInput::Key { vk: key_code as u16, flags: 0 };
    let up = SyntheticInput::Key { vk: key_code as u16, flags: KEYEVENTF_KEYUP };
    match state {
        KeyState::Down => seq![down],
        KeyState::Up => seq![up],
        KeyState::Pressed => seq![down, up],
    }
}

/// The inputs of a wheel action of `amount` (in wheel units).
pub open spec fn wheel_inputs(amount: i32, p: Option<MousePointKind>) -> Seq<SyntheticInput> {
    cursor_first(p) + seq![mouse_input(p, amount as u32, MOUSEEVENTF_WHEEL)]
}

/// The input of a cursor move, given where the cursor is now.
pub open spec fn move_inputs(p: MousePointKind, cursor: Point) -> Seq<SyntheticInput> {
    match p {
        MousePointKind::To(q) => seq![SyntheticInput::SetCursor(q)],
        MousePointKind::By(q) => seq![
            SyntheticInput::SetCursor(
                Point { x: cursor.x.wrapping_add(q.x), y: cursor.y.wrapping_add(q.y) },
            ),
        ],
    }
}

/// The inputs that replay an action, given the cursor position; none for a
/// mouse button that is not left, right or middle. Actions that are not
/// mouse or keyboard input need no input.
pub open spec fn inputs_of(a: Action, cursor: Point) -> Option<Seq<SyntheticInput>> {
    match a {
        Action::Mouse(MouseActionKind::Moved(p)) => Some(move_inputs(p, cursor)),
        Action::Mouse(MouseActionKind::Button(b)) => button_inputs(b),
        Action::Mouse(MouseActionKind::Wheel(amount, p)) => Some(wheel_inputs(amount, p)),
        Action::Keyboard(code, state) => Some(key_inputs(code, state)),
        _ => Some(Seq::empty()),
    }
}

fn flag_of(button: i32, down: bool) -> (r: Option<u32>)
    ensures
        r == button_flag(button, down),
{
    if button == VK_LBUTTON {
        Some(if down { MOUSEEVENTF_LEFTDOWN } else { MOUSEEVENTF_LEFTUP })
    } else if button == VK_RBUTTON {
        Some(if down { MOUSEEVENTF_RIGHTDOWN } else { MOUSEEVENTF_RIGHTUP })
    } else if button == VK_MBUTTON {
        Some(if down { MOUSEEVENTF_MIDDLEDOWN } else { MOUSEEVENTF_MIDDLEUP })
    } else {
        None
    }
}

fn push_cursor_first(out: &mut Vec<SyntheticInput>, p: Option<MousePointKind>)
    ensures
        final(out)@ == old(out)@ + cursor_first(p),
{
    if let Some(MousePointKind::To(q)) = p {
        out.push(SyntheticInput::SetCursor(q));
    }
    assert(final(out)@ =~= old(out)@ + cursor_first(p));
}

fn make_mouse_input(p: Option<MousePointKind>, mouse_data: u32, flags: u32) -> (r: SyntheticInput)
    ensures
        r == mouse_input(p, mouse_data, flags),
{
    let (dx, dy) = match p {
        Some(MousePointKind::By(q)) => (q.x, q.y),
        _ => (0, 0),
    };
    SyntheticInput::Mouse { dx, dy, mouse_data, flags }
}

/// The inputs that replay a mouse button action.
pub fn mouse_button_inputs(action: &MouseActionButton) -> (r: Option<Vec<SyntheticInput>>)
    ensures
        r matches Some(v) ==> button_inputs(*action) == Some(v@),
        r is None ==> button_inputs(*action) is None,
{
    let down = flag_of(action.button, true);
    let up = flag_of(action.button, false);
    match (down, up) {
        (Some(down), Some(up)) => {
            let mut out: Vec<SyntheticInput> = Vec::new();
            push_cursor_first(&mut out, action.point);
            let ghost first = out@;
            match action.state {
                MouseActionButtonState::Pressed => {
                    out.push(make_mouse_input(action.point, 0, down));
                },
                MouseActionButtonState::Released => {
                    out.push(make_mouse_input(action.point, 0, up));
                },
                MouseActionButtonState::Clicked => {
                    out.push(make_mouse_input(action.point, 0, down));
                    out.push(make_mouse_input(action.point, 0, up));
                },
            }
            assert(Some(out@) == button_inputs(*action)) by {
                assert(first =~= cursor_first(action.point));
                match action.state {
                    MouseActionButtonState::Pressed => {
                        assert(out@ =~= first + seq![mouse_input(action.point, 0, down)]);
                    },
                    MouseActionButtonState::Released => {
                        assert(out@ =~= first + seq![mouse_input(action.point, 0, up)]);
                    },
                    MouseActionButtonState::Clicked => {
                        assert(out@ =~= first + seq![
                            mouse_input(action.point, 0, down),
                            mouse_input(action.point, 0, up),
                        ]);
                    },
                }
            }
            Some(out)
        },
        _ => None,
    }
}

/// The inputs that replay a key action.
pub fn keyboard_inputs(key_code: i32, state: KeyState) -> (r: Vec<SyntheticInput>)
    ensures
        r@ == key_inputs(key_code, state),
{
    let down = SyntheticInput::Key { vk: key_code as u16, flags: 0 };
    let up = SyntheticInput::Key { vk: key_code as u16, flags: KEYEVENTF_KEYUP };
    let mut out: Vec<SyntheticInput> = Vec::new();
    match state {
        KeyState::Down => {
            out.push(down);
        },
        KeyState::Up => {
            out.push(up);
        },
        KeyState::Pressed => {
            out.push(down);
            out.push(up);
        },
    }
    assert(out@ =~= key_inputs(key_code, state));
    out
}

/// The inputs that replay a wheel action.
pub fn scroll_wheel_inputs(amount: i32, point: Option<MousePointKind>) -> (r: Vec<SyntheticInput>)
    ensures
        r@ == wheel_inputs(amount, point),
{
    let mut out: Vec<SyntheticInput> = Vec::new();
    push_cursor_first(&mut out, point);
    out.push(make_mouse_input(point, amount as u32, MOUSEEVENTF_WHEEL));
    assert(out@ =~= wheel_inputs(amount, point));
    out
}

/// The input that replays a cursor move, given where the cursor is now.
pub fn mouse_move_inputs(point: MousePointKind, cursor: Point) -> (r: Vec<SyntheticInput>)
    ensures
        r@ == move_inputs(point, cursor),
{
    let target = match point {
        MousePointKind::To(q) => q,
        MousePointKind::By(q) => Point { x: cursor.x.wrapping_add(q.x), y: cursor.y.wrapping_add(q.y) },
    };
    let mut out: Vec<SyntheticInput> = Vec::new();
    out.push(SyntheticInput::SetCursor(target));
    assert(out@ =~= move_inputs(point, cursor));
    out
}

/// The inputs that replay `action`, given the cursor position.
pub fn inputs_for(action: &Action, cursor: Point) -> (r: Option<Vec<SyntheticInput>>)
    ensures
        r matches Some(v) ==> inputs_of(*action, cursor) == Some(v@),
        r is None ==> inputs_of(*action, cursor) is None,
{
    match action {
        Action::Mouse(MouseActionKind::Moved(p)) => Some(mouse_move_inputs(*p, cursor)),
        Action::Mouse(MouseActionKind::Button(b)) => mouse_button_inputs(b),
        Action::Mouse(MouseActionKind::Wheel(amount, p)) => Some(scroll_wheel_inputs(*amount, *p)),
        Action::Keyboard(code, state) => Some(keyboard_inputs(*code, *state)),
        _ => {
            let out: Vec<SyntheticInput> = Vec::new();
            assert(out@ =~= Seq::<SyntheticInput>::empty());
            Some(out)
        },
    }
}

} // verus!
