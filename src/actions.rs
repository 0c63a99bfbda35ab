use vstd::prelude::*;
use vstd::string::*;

use crate::keycodes_to_string::{
    decimal, decimal_string, key_code_to_string, key_name, signed_decimal, signed_string,
};

verus! {

/// Similarity threshold that stands for 1.0: an image query with this threshold
/// asks for an exact, pixel-for-pixel match.
pub const FULL_SIMILARITY: u32 = 1000000;

/// Virtual key code of the left mouse button.
pub const VK_LBUTTON: i32 = 1;

/// Virtual key code of the right mouse button.
pub const VK_RBUTTON: i32 = 2;

/// Virtual key code of the middle mouse button.
pub const VK_MBUTTON: i32 = 4;

/// A point on the virtual desktop, in pixels.
#[derive(Clone, Copy, Debug, PartialEq, Eq, Structural)]
pub struct Point {
    pub x: i32,
    pub y: i32,
}

/// A position that is either absolute (`To`) or an offset from the cursor (`By`).
#[derive(Clone, Copy, Debug, PartialEq, Eq, Structural)]
pub enum MousePointKind {
    To(Point),
    By(Point),
}

#[derive(Clone, Copy, Debug, PartialEq, Eq, Structural)]
pub enum MouseActionButtonState {
    Pressed,
    Released,
    Clicked,
}

#[derive(Clone, Copy, Debug, PartialEq, Eq, Structural)]
pub struct MouseActionButton {
    pub point: Option<MousePointKind>,
    pub button: i32,
    pub state: MouseActionButtonState,
}

#[derive(Clone, Copy, Debug, PartialEq, Eq, Structural)]
pub enum MouseActionKind {
    Moved(MousePointKind),
    Button(MouseActionButton),
    Wheel(i32, Option<MousePointKind>),
}

#[derive(Clone, Copy, Debug, PartialEq, Eq, Structural)]
pub enum KeyState {
    Down,
    Up,
    Pressed,
}

/// A search for one colour inside a rectangle of the screen.
#[derive(Clone, Copy, Debug, PartialEq, Eq)]
pub struct PixelInfo {
    pub color: (u8, u8, u8),
    pub search_location_left_top: (i32, i32),
    pub search_location_width_height: (i32, i32),
    pub check_if_not_found: bool,
    pub move_mouse_if_found: bool,
}

/// A captured bitmap: 4 bytes per pixel (blue, green, red, alpha as the screen
/// hands them out), row by row, and the screen position of its top-left corner.
#[derive(Clone, Debug, PartialEq, Eq)]
pub struct RawScreenshot {
    pub pixels: Vec<u8>,
    pub width: usize,
    pub height: usize,
    pub x: i32,
    pub y: i32,
}

/// A grayscale bitmap: one byte per pixel, row by row.
#[derive(Clone, Debug, PartialEq, Eq)]
pub struct GrayImageSerializable {
    pub pixels: Vec<u8>,
    pub width: u32,
    pub height: u32,
}

/// The reference bitmap of an image query, in colour and in grayscale.
#[derive(Clone, Debug, PartialEq, Eq)]
pub struct RawScreenshotPair {
    pub color: RawScreenshot,
    pub gray: GrayImageSerializable,
}

/// A search for a reference bitmap on the screen.
///
/// `image_similarity` is the threshold in millionths: `FULL_SIMILARITY` asks for
/// an exact match, anything below it for an approximate one.
#[derive(Clone, Debug, PartialEq, Eq)]
pub struct ImageInfo {
    pub screenshot_raw: Option<RawScreenshotPair>,
    pub move_mouse_if_found: bool,
    pub check_if_not_found: bool,
    pub search_location_left_top: Option<(i32, i32)>,
    pub search_location_width_height: Option<(i32, i32)>,
    pub image_similarity: u32,
}

/// One step of a macro.
#[derive(Clone, Debug, PartialEq, Eq)]
pub enum Action {
    Delay(u32),
    Mouse(MouseActionKind),
    Keyboard(i32, KeyState),
    WaitForImage(ImageInfo),
    IfImage(ImageInfo),
    WaitForPixel(PixelInfo),
    IfPixel(PixelInfo),
    Else,
    EndIf,
    Repeat(usize),
    EndRepeat,
    Break,
    Play(String),
}

impl MousePointKind {
    pub open spec fn point(self) -> Point {
        match self {
            MousePointKind::To(p) => p,
            MousePointKind::By(p) => p,
        }
    }

    pub fn x(self) -> (r: i32)
        ensures
            r == self.point().x,
    {
        match self {
            MousePointKind::To(point) => point.x,
            MousePointKind::By(point) => point.x,
        }
    }

    pub fn y(self) -> (r: i32)
        ensures
            r == self.point().y,
    {
        match self {
            MousePointKind::To(point) => point.y,
            MousePointKind::By(point) => point.y,
        }
    }
}

impl RawScreenshot {
    /// The pixel buffer holds exactly `width * height` pixels of 4 bytes.
    pub open spec fn wf(&self) -> bool {
        self.pixels@.len() == self.width * self.height * 4
    }

    /// Whether the pixel buffer holds exactly `width * height` pixels of 4 bytes.
    pub fn is_well_formed(&self) -> (r: bool)
        ensures
            r == self.wf(),
    {
        let w = self.width as u128;
        let h = self.height as u128;
        proof {
            let wi = w as int;
            let hi = h as int;
            assert(wi * hi <= u128::MAX) by (nonlinear_arith)
                requires
                    0 <= wi <= u64::MAX as int,
                    0 <= hi <= u64::MAX as int,
            ;
        }
        let ghost prod = self.width as int * self.height as int;
        let len = self.pixels.len();
        match w.checked_mul(h) {
            Some(n) => {
                assert(n == prod);
                match n.checked_mul(4) {
                    Some(bytes) => {
                        assert(bytes == prod * 4);
                        bytes == len as u128
                    },
                    None => {
                        assert(prod * 4 > len);
                        false
                    },
                }
            },
            None => false,
        }
    }

    /// Swaps the first and third byte of every pixel, turning blue-green-red-alpha
    /// into red-green-blue-alpha.
    pub fn to_rgba8(self) -> (r: Self)
        requires
            self.pixels@.len() % 4 == 0,
        ensures
            r.width == self.width,
            r.height == self.height,
            r.x == self.x,
            r.y == self.y,
            r.pixels@.len() == self.pixels@.len(),
            forall|k: int|
                0 <= k < self.pixels@.len() / 4 ==> {
                    &&& #[trigger] r.pixels@[4 * k] == self.pixels@[4 * k + 2]
                    &&& r.pixels@[4 * k + 1] == self.pixels@[4 * k + 1]
                    &&& r.pixels@[4 * k + 2] == self.pixels@[4 * k]
                    &&& r.pixels@[4 * k + 3] == self.pixels@[4 * k + 3]
                },
    {
        let ghost old_pixels = self.pixels@;
        let mut shot = self;
        let len = shot.pixels.len();
        let n = len / 4;
        let mut k: usize = 0;
        while k < n
            invariant
                shot.width == self.width,
                shot.height == self.height,
                shot.x == self.x,
                shot.y == self.y,
                n * 4 == old_pixels.len(),
                n * 4 == len,
                shot.pixels@.len() == old_pixels.len(),
                k <= n,
                forall|j: int|
                    0 <= j < k ==> {
                        &&& #[trigger] shot.pixels@[4 * j] == old_pixels[4 * j + 2]
                        &&& shot.pixels@[4 * j + 1] == old_pixels[4 * j + 1]
                        &&& shot.pixels@[4 * j + 2] == old_pixels[4 * j]
                        &&& shot.pixels@[4 * j + 3] == old_pixels[4 * j + 3]
                    },
                forall|i: int| 4 * k <= i < old_pixels.len() ==> shot.pixels@[i] == old_pixels[i],
            decreases n - k,
        {
            let ghost before = shot.pixels@;
            let blue = shot.pixels[4 * k];
            let red = shot.pixels[4 * k + 2];
            shot.pixels.set(4 * k, red);
            shot.pixels.set(4 * k + 2, blue);
            assert forall|j: int|
                0 <= j < k + 1 implies {
                    &&& #[trigger] shot.pixels@[4 * j] == old_pixels[4 * j + 2]
                    &&& shot.pixels@[4 * j + 1] == old_pixels[4 * j + 1]
                    &&& shot.pixels@[4 * j + 2] == old_pixels[4 * j]
                    &&& shot.pixels@[4 * j + 3] == old_pixels[4 * j + 3]
                } by {
                if j < k {
                    assert(before[4 * j] == old_pixels[4 * j + 2]);
                }
            }
            k = k + 1;
        }
        shot
    }
}

impl Default for ImageInfo {
    fn default() -> (r: Self)
        ensures
            r.screenshot_raw.is_none(),
            !r.move_mouse_if_found,
            !r.check_if_not_found,
            r.search_location_left_top.is_none(),
            r.search_location_width_height.is_none(),
            r.image_similarity == FULL_SIMILARITY,
    {
        ImageInfo {
            screenshot_raw: None,
            move_mouse_if_found: false,
            check_if_not_found: false,
            search_location_left_top: None,
            search_location_width_height: None,
            image_similarity: FULL_SIMILARITY,
        }
    }
}

/// "X = x, Y = y".
pub open spec fn xy_text(p: Point) -> Seq<char> {
    "X = "@ + signed_decimal(p.x as int) + ", Y = "@ + signed_decimal(p.y as int)
}

/// Wheel units in notches of 120, rounded toward zero.
pub open spec fn notches(amount: int) -> int {
    if amount >= 0 {
        amount / 120
    } else {
        -((-amount) / 120)
    }
}

pub open spec fn move_note(move_mouse_if_found: bool) -> Seq<char> {
    if move_mouse_if_found {
        "Move mouse to center if found"@
    } else {
        ""@
    }
}

/// The three display columns of an action: its kind, its main parameter and
/// a detail.
pub open spec fn grid_of(a: Action) -> (Seq<char>, Seq<char>, Seq<char>) {
    match a {
        Action::Delay(d) => ("Delay"@, decimal(d as nat), ""@),
        Action::Mouse(MouseActionKind::Moved(MousePointKind::To(p))) => (
            "Mouse"@,
            "Moved To"@,
            xy_text(p),
        ),
        Action::Mouse(MouseActionKind::Moved(MousePointKind::By(p))) => (
            "Mouse"@,
            "Changed By"@,
            xy_text(p),
        ),
        Action::Mouse(MouseActionKind::Button(b)) => (
            "Mouse"@,
            "Button "@ + key_name(b.button) + " "@ + match b.state {
                MouseActionButtonState::Pressed => "Down"@,
                MouseActionButtonState::Released => "Up"@,
                MouseActionButtonState::Clicked => "Clicked"@,
            },
            match b.point {
                Some(MousePointKind::To(p)) => "At "@ + xy_text(p),
                Some(MousePointKind::By(p)) => "Moved By "@ + xy_text(p),
                None => "Current Position"@,
            },
        ),
        Action::Mouse(MouseActionKind::Wheel(amount, _)) => (
            "Mouse"@,
            "Wheel"@,
            signed_decimal(notches(amount as int)),
        ),
        Action::Keyboard(code, state) => (
            "Keyboard"@,
            "Key "@ + key_name(code),
            match state {
                KeyState::Down => "Down"@,
                KeyState::Up => "Up"@,
                KeyState::Pressed => "Pressed"@,
            },
        ),
        Action::WaitForImage(info) => (
            "Wait For Image"@,
            if info.check_if_not_found {
                "Wait until not found"@
            } else {
                "Wait until found"@
            },
            move_note(info.move_mouse_if_found),
        ),
        Action::IfImage(info) => (
            "If Image"@,
            if info.check_if_not_found {
                "If image not found"@
            } else {
                "If image found"@
            },
            move_note(info.move_mouse_if_found),
        ),
        Action::Else => ("Else"@, ""@, ""@),
        Action::EndIf => ("End If"@, ""@, ""@),
        Action::IfPixel(info) => (
            "If pixel"@,
            if info.check_if_not_found {
                "If pixel not found"@
            } else {
                "If pixel found"@
            },
            move_note(info.move_mouse_if_found),
        ),
        Action::WaitForPixel(info) => (
            "Wait For Pixel"@,
            if info.check_if_not_found {
                "Wait for no pixel"@
            } else {
                "Wait for pixel"@
            },
            move_note(info.move_mouse_if_found),
        ),
        Action::Repeat(n) => (
            "Repeat"@,
            if n == 0 {
                "Forever"@
            } else {
                decimal(n as nat) + " Times"@
            },
            ""@,
        ),
        Action::EndRepeat => ("End Repeat"@, ""@, ""@),
        Action::Break => ("Break"@, ""@, ""@),
        Action::Play(path) => ("Play"@, path@, ""@),
    }
}

fn xy_string(p: Point) -> (r: String)
    ensures
        r@ == xy_text(p),
{
    let mut s = String::from_str("X = ");
    let x = signed_string(p.x);
    s.append(x.as_str());
    s.append(", Y = ");
    let y = signed_string(p.y);
    s.append(y.as_str());
    assert(s@ =~= xy_text(p));
    s
}

fn text(s: &str) -> (r: String)
    ensures
        r@ == s@,
{
    String::from_str(s)
}

fn move_note_string(move_mouse_if_found: bool) -> (r: String)
    ensures
        r@ == move_note(move_mouse_if_found),
{
    if move_mouse_if_found {
        text("Move mouse to center if found")
    } else {
        text("")
    }
}

impl Action {
    /// The three display columns of the action.
    pub fn get_grid_formatted(&self) -> (r: [String; 3])
        ensures
            r[0]@ == grid_of(*self).0,
            r[1]@ == grid_of(*self).1,
            r[2]@ == grid_of(*self).2,
    {
        match self {
            Action::Delay(d) => [text("Delay"), decimal_string(*d as u64), text("")],
            Action::Mouse(MouseActionKind::Moved(point)) => {
                let (kind, p) = match point {
                    MousePointKind::To(p) => (text("Moved To"), *p),
                    MousePointKind::By(p) => (text("Changed By"), *p),
                };
                [text("Mouse"), kind, xy_string(p)]
            },
            Action::Mouse(MouseActionKind::Button(b)) => {
                let mut second = text("Button ");
                let name = key_code_to_string(b.button);
                second.append(name.as_str());
                second.append(" ");
                match b.state {
                    MouseActionButtonState::Pressed => second.append("Down"),
                    MouseActionButtonState::Released => second.append("Up"),
                    MouseActionButtonState::Clicked => second.append("Clicked"),
                }
                let third = match b.point {
                    Some(MousePointKind::To(p)) => {
                        let mut t = text("At ");
                        let xy = xy_string(p);
                        t.append(xy.as_str());
                        t
                    },
                    Some(MousePointKind::By(p)) => {
                        let mut t = text("Moved By ");
                        let xy = xy_string(p);
                        t.append(xy.as_str());
                        t
                    },
                    None => text("Current Position"),
                };
                proof {
                    let g = grid_of(*self);
                    assert(second@ =~= g.1);
                }
                [text("Mouse"), second, third]
            },
            Action::Mouse(MouseActionKind::Wheel(amount, _)) => {
                let a = *amount as i64;
                let n: i64 = if a >= 0 {
                    a / 120
                } else {
                    -((-a) / 120)
                };
                [text("Mouse"), text("Wheel"), signed_string(n as i32)]
            },
            Action::Keyboard(code, state) => {
                let mut second = text("Key ");
                let name = key_code_to_string(*code);
                second.append(name.as_str());
                let third = match state {
                    KeyState::Down => text("Down"),
                    KeyState::Up => text("Up"),
                    KeyState::Pressed => text("Pressed"),
                };
                [text("Keyboard"), second, third]
            },
            Action::WaitForImage(info) => [
                text("Wait For Image"),
                if info.check_if_not_found {
                    text("Wait until not found")
                } else {
                    text("Wait until found")
                },
                move_note_string(info.move_mouse_if_found),
            ],
            Action::IfImage(info) => [
                text("If Image"),
                if info.check_if_not_found {
                    text("If image not found")
                } else {
                    text("If image found")
                },
                move_note_string(info.move_mouse_if_found),
            ],
            Action::Else => [text("Else"), text(""), text("")],
            Action::EndIf => [text("End If"), text(""), text("")],
            Action::IfPixel(info) => [
                text("If pixel"),
                if info.check_if_not_found {
                    text("If pixel not found")
                } else {
                    text("If pixel found")
                },
                move_note_string(info.move_mouse_if_found),
            ],
            Action::WaitForPixel(info) => [
                text("Wait For Pixel"),
                if info.check_if_not_found {
                    text("Wait for no pixel")
                } else {
                    text("Wait for pixel")
                },
                move_note_string(info.move_mouse_if_found),
            ],
            Action::Repeat(n) => {
                let second = if *n == 0 {
                    text("Forever")
                } else {
                    let mut t = decimal_string(*n as u64);
                    t.append(" Times");
                    t
                };
                [text("Repeat"), second, text("")]
            },
            Action::EndRepeat => [text("End Repeat"), text(""), text("")],
            Action::Break => [text("Break"), text(""), text("")],
            Action::Play(path) => [text("Play"), path.clone(), text("")],
        }
    }
}

} // verus!
