use vstd::prelude::*;
use vstd::string::*;

verus! {

pub open spec fn digit_text(d: nat) -> Seq<char> {
    if d == 0 {
        "0"@
    } else if d == 1 {
        "1"@
    } else if d == 2 {
        "2"@
    } else if d == 3 {
        "3"@
    } else if d == 4 {
        "4"@
    } else if d == 5 {
        "5"@
    } else if d == 6 {
        "6"@
    } else if d == 7 {
        "7"@
    } else if d == 8 {
        "8"@
    } else {
        "9"@
    }
}

/// The decimal digits of `n`.
pub open spec fn decimal(n: nat) -> Seq<char>
    decreases n,
{
    if n < 10 {
        digit_text(n)
    } else {
        decimal(n / 10) + digit_text(n % 10)
    }
}

/// `i` in decimal, with a minus sign when negative.
pub open spec fn signed_decimal(i: int) -> Seq<char> {
    if i < 0 {
        "-"@ + decimal((-i) as nat)
    } else {
        decimal(i as nat)
    }
}

fn digit(d: u64) -> (r: &'static str)
    requires
        d < 10,
    ensures
        r@ == digit_text(d as nat),
{
    if d == 0 {
        "0"
    } else if d == 1 {
        "1"
    } else if d == 2 {
        "2"
    } else if d == 3 {
        "3"
    } else if d == 4 {
        "4"
    } else if d == 5 {
        "5"
    } else if d == 6 {
        "6"
    } else if d == 7 {
        "7"
    } else if d == 8 {
        "8"
    } else {
        "9"
    }
}

/// `n` written in decimal.
pub fn decimal_string(n: u64) -> (r: String)
    ensures
        r@ == decimal(n as nat),
    decreases n,
{
    if n < 10 {
        String::from_str(digit(n))
    } else {
        let mut s = decimal_string(n / 10);
        s.append(digit(n % 10));
        s
    }
}

/// `i` written in decimal, with a minus sign when negative.
pub fn signed_string(i: i32) -> (r: String)
    ensures
        r@ == signed_decimal(i as int),
{
    if i < 0 {
        let mut s = String::from_str("-");
        let digits = decimal_string((-(i as i64)) as u64);
        s.append(digits.as_str());
        s
    } else {
        decimal_string(i as u64)
    }
}

/// The name of a key that has a fixed one.
pub open spec fn fixed_key_name(code: i32) -> Option<Seq<char>> {
    if code == 0x01 {
        Some("Left"@)
    } else if code == 0x02 {
        Some("Right"@)
    } else if code == 0x04 {
        Some("Middle"@)
    } else if code == 0x08 {
        Some("Back"@)
    } else if code == 0x09 {
        Some("Tab"@)
    } else if code == 0x0C {
        Some("Clear"@)
    } else if code == 0x0D {
        Some("Enter"@)
    } else if code == 0xA0 {
        Some("Left Shift"@)
    } else if code == 0xA1 {
        Some("Right Shift"@)
    } else if code == 0xA2 {
        Some("Left Control"@)
    } else if code == 0xA3 {
        Some("Right Control"@)
    } else if code == 0xA4 {
        Some("Left Alt"@)
    } else if code == 0xA5 {
        Some("Right Alt"@)
    } else if code == 0x14 {
        Some("Caps Lock"@)
    } else if code == 0x1B {
        Some("Escape"@)
    } else if code == 0x20 {
        Some("Space"@)
    } else if code == 0x21 {
        Some("Page Up"@)
    } else if code == 0x22 {
        Some("Page Down"@)
    } else if code == 0x23 {
        Some("End"@)
    } else if code == 0x24 {
        Some("Home"@)
    } else if code == 0x25 {
        Some("Left Arrow"@)
    } else if code == 0x26 {
        Some("Up Arrow"@)
    } else if code == 0x27 {
        Some("Right Arrow"@)
    } else if code == 0x28 {
        Some("Down Arrow"@)
    } else if code == 0x29 {
        Some("Select"@)
    } else if code == 0x2A {
        Some("Print"@)
    } else if code == 0x2B {
        Some("Execute"@)
    } else if code == 0x2C {
        Some("Snapshot"@)
    } else if code == 0x2D {
        Some("Insert"@)
    } else if code == 0x2E {
        Some("Delete"@)
    } else if code == 0x2F {
        Some("Help"@)
    } else if code == 0x5B {
        Some("Left Windows"@)
    } else if code == 0x5C {
        Some("Right Windows"@)
    } else if code == 0x5D {
        Some("Applications"@)
    } else if code == 0x5F {
        Some("Sleep"@)
    } else if code == 0x6B {
        Some("Add"@)
    } else if code == 0x6D {
        Some("Subtract"@)
    } else if code == 0x6A {
        Some("Multiply"@)
    } else if code == 0x6F {
        Some("Divide"@)
    } else if code == 0x6C {
        Some("Separator"@)
    } else if code == 0x6E {
        Some("Decimal"@)
    } else if code == 0x90 {
        Some("Number Lock"@)
    } else if code == 0x91 {
        Some("Scroll"@)
    } else {
        None
    }
}

/// The name shown for a virtual key code: a fixed name, the digit or letter
/// of the key, the number pad digit, the function key, or the code itself.
pub open spec fn key_name(code: i32) -> Seq<char> {
    if fixed_key_name(code) is Some {
        fixed_key_name(code)->Some_0
    } else if 0x30 <= code <= 0x39 {
        decimal((code - 0x30) as nat)
    } else if 0x41 <= code <= 0x5A {
        "ABCDEFGHIJKLMNOPQRSTUVWXYZ"@.subrange(code - 0x41, code - 0x41 + 1)
    } else if 0x60 <= code <= 0x69 {
        "Number Pad "@ + decimal((code - 0x60) as nat)
    } else if 0x70 <= code <= 0x87 {
        "F"@ + decimal((code - 0x70 + 1) as nat)
    } else {
        "Key Code: "@ + signed_decimal(code as int)
    }
}

fn fixed_name(code: i32) -> (r: Option<&'static str>)
    ensures
        r matches Some(s) ==> fixed_key_name(code) == Some(s@),
        r is None ==> fixed_key_name(code) is None,
{
    if code == 0x01 {
        Some("Left")
    } else if code == 0x02 {
        Some("Right")
    } else if code == 0x04 {
        Some("Middle")
    } else if code == 0x08 {
        Some("Back")
    } else if code == 0x09 {
        Some("Tab")
    } else if code == 0x0C {
        Some("Clear")
    } else if code == 0x0D {
        Some("Enter")
    } else if code == 0xA0 {
        Some("Left Shift")
    } else if code == 0xA1 {
        Some("Right Shift")
    } else if code == 0xA2 {
        Some("Left Control")
    } else if code == 0xA3 {
        Some("Right Control")
    } else if code == 0xA4 {
        Some("Left Alt")
    } else if code == 0xA5 {
        Some("Right Alt")
    } else if code == 0x14 {
        Some("Caps Lock")
    } else if code == 0x1B {
        Some("Escape")
    } else if code == 0x20 {
        Some("Space")
    } else if code == 0x21 {
        Some("Page Up")
    } else if code == 0x22 {
        Some("Page Down")
    } else if code == 0x23 {
        Some("End")
    } else if code == 0x24 {
        Some("Home")
    } else if code == 0x25 {
        Some("Left Arrow")
    } else if code == 0x26 {
        Some("Up Arrow")
    } else if code == 0x27 {
        Some("Right Arrow")
    } else if code == 0x28 {
        Some("Down Arrow")
    } else if code == 0x29 {
        Some("Select")
    } else if code == 0x2A {
        Some("Print")
    } else if code == 0x2B {
        Some("Execute")
    } else if code == 0x2C {
        Some("Snapshot")
    } else if code == 0x2D {
        Some("Insert")
    } else if code == 0x2E {
        Some("Delete")
    } else if code == 0x2F {
        Some("Help")
    } else if code == 0x5B {
        Some("Left Windows")
    } else if code == 0x5C {
        Some("Right Windows")
    } else if code == 0x5D {
        Some("Applications")
    } else if code == 0x5F {
        Some("Sleep")
    } else if code == 0x6B {
        Some("Add")
    } else if code == 0x6D {
        Some("Subtract")
    } else if code == 0x6A {
        Some("Multiply")
    } else if code == 0x6F {
        Some("Divide")
    } else if code == 0x6C {
        Some("Separator")
    } else if code == 0x6E {
        Some("Decimal")
    } else if code == 0x90 {
        Some("Number Lock")
    } else if code == 0x91 {
        Some("Scroll")
    } else {
        None
    }
}

/// The name shown for a virtual key code.
pub fn key_code_to_string(code: i32) -> (r: String)
    ensures
        r@ == key_name(code),
{
    if let Some(name) = fixed_name(code) {
        String::from_str(name)
    } else if 0x30 <= code && code <= 0x39 {
        decimal_string((code - 0x30) as u64)
    } else if 0x41 <= code && code <= 0x5A {
        let letters = "ABCDEFGHIJKLMNOPQRSTUVWXYZ";
        proof {
            reveal_strlit("ABCDEFGHIJKLMNOPQRSTUVWXYZ");
        }
        let k = (code - 0x41) as usize;
        String::from_str(letters.substring_ascii(k, k + 1))
    } else if 0x60 <= code && code <= 0x69 {
        let mut s = String::from_str("Number Pad ");
        let digits = decimal_string((code - 0x60) as u64);
        s.append(digits.as_str());
        s
    } else if 0x70 <= code && code <= 0x87 {
        let mut s = String::from_str("F");
        let digits = decimal_string((code - 0x70 + 1) as u64);
        s.append(digits.as_str());
        s
    } else {
        let mut s = String::from_str("Key Code: ");
        let digits = signed_string(code);
        s.append(digits.as_str());
        s
    }
}

} // verus!
