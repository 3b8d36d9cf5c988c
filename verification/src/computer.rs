//! The keyboard's codes, as the OS input layer numbers them.
//!
//! Pressing keys, clicking and opening apps are OS effects the surrounding
//! program performs; what belongs here are the pure tables mapping
//! characters and key names to hardware key codes, exactly as the input
//! layer expects them.

use vstd::prelude::*;

verus! {

pub open spec fn char_keycode_spec(c: char) -> Option<u16> {
    match crate::text::lower_char(c) {
        'a' => Some(0x00),
        'b' => Some(0x0B),
        'c' => Some(0x08),
        'd' => Some(0x02),
        'e' => Some(0x0E),
        'f' => Some(0x03),
        'g' => Some(0x05),
        'h' => Some(0x04),
        'i' => Some(0x22),
        'j' => Some(0x26),
        'k' => Some(0x28),
        'l' => Some(0x25),
        'm' => Some(0x2E),
        'n' => Some(0x2D),
        'o' => Some(0x1F),
        'p' => Some(0x23),
        'q' => Some(0x0C),
        'r' => Some(0x0F),
        's' => Some(0x01),
        't' => Some(0x11),
        'u' => Some(0x20),
        'v' => Some(0x09),
        'w' => Some(0x0D),
        'x' => Some(0x07),
        'y' => Some(0x10),
        'z' => Some(0x06),
        '0' | ')' => Some(0x1D),
        '1' | '!' => Some(0x12),
        '2' | '@' => Some(0x13),
        '3' | '#' => Some(0x14),
        '4' | '$' => Some(0x15),
        '5' | '%' => Some(0x17),
        '6' | '^' => Some(0x16),
        '7' | '&' => Some(0x1A),
        '8' | '*' => Some(0x1C),
        '9' | '(' => Some(0x19),
        ' ' => Some(0x31),
        '-' | '_' => Some(0x1B),
        '=' | '+' => Some(0x18),
        '[' | '{' => Some(0x21),
        ']' | '}' => Some(0x1E),
        '\\' | '|' => Some(0x2A),
        ';' | ':' => Some(0x29),
        '\'' | '"' => Some(0x27),
        ',' | '<' => Some(0x2B),
        '.' | '>' => Some(0x2F),
        '/' | '?' => Some(0x2C),
        '`' | '~' => Some(0x32),
        _ => None,
    }
}

/// The hardware key code a single character is typed with, if it has one.
pub fn char_to_keycode(c: char) -> (r: Option<u16>)
    ensures
        r == char_keycode_spec(c),
{
    match crate::text::to_lower_char(c) {
        'a' => Some(0x00),
        'b' => Some(0x0B),
        'c' => Some(0x08),
        'd' => Some(0x02),
        'e' => Some(0x0E),
        'f' => Some(0x03),
        'g' => Some(0x05),
        'h' => Some(0x04),
        'i' => Some(0x22),
        'j' => Some(0x26),
        'k' => Some(0x28),
        'l' => Some(0x25),
        'm' => Some(0x2E),
        'n' => Some(0x2D),
        'o' => Some(0x1F),
        'p' => Some(0x23),
        'q' => Some(0x0C),
        'r' => Some(0x0F),
        's' => Some(0x01),
        't' => Some(0x11),
        'u' => Some(0x20),
        'v' => Some(0x09),
        'w' => Some(0x0D),
        'x' => Some(0x07),
        'y' => Some(0x10),
        'z' => Some(0x06),
        '0' | ')' => Some(0x1D),
        '1' | '!' => Some(0x12),
        '2' | '@' => Some(0x13),
        '3' | '#' => Some(0x14),
        '4' | '$' => Some(0x15),
        '5' | '%' => Some(0x17),
        '6' | '^' => Some(0x16),
        '7' | '&' => Some(0x1A),
        '8' | '*' => Some(0x1C),
        '9' | '(' => Some(0x19),
        ' ' => Some(0x31),
        '-' | '_' => Some(0x1B),
        '=' | '+' => Some(0x18),
        '[' | '{' => Some(0x21),
        ']' | '}' => Some(0x1E),
        '\\' | '|' => Some(0x2A),
        ';' | ':' => Some(0x29),
        '\'' | '"' => Some(0x27),
        ',' | '<' => Some(0x2B),
        '.' | '>' => Some(0x2F),
        '/' | '?' => Some(0x2C),
        '`' | '~' => Some(0x32),
        _ => None,
    }
}

pub open spec fn key_keycode_spec(k: Seq<char>) -> Option<u16> {
    if k == "a"@ {
        Some(0x00)
    } else if k == "s"@ {
        Some(0x01)
    } else if k == "d"@ {
        Some(0x02)
    } else if k == "f"@ {
        Some(0x03)
    } else if k == "h"@ {
        Some(0x04)
    } else if k == "g"@ {
        Some(0x05)
    } else if k == "z"@ {
        Some(0x06)
    } else if k == "x"@ {
        Some(0x07)
    } else if k == "c"@ {
        Some(0x08)
    } else if k == "v"@ {
        Some(0x09)
    } else if k == "b"@ {
        Some(0x0B)
    } else if k == "q"@ {
        Some(0x0C)
    } else if k == "w"@ {
        Some(0x0D)
    } else if k == "e"@ {
        Some(0x0E)
    } else if k == "r"@ {
        Some(0x0F)
    } else if k == "y"@ {
        Some(0x10)
    } else if k == "t"@ {
        Some(0x11)
    } else if k == "1"@ {
        Some(0x12)
    } else if k == "2"@ {
        Some(0x13)
    } else if k == "3"@ {
        Some(0x14)
    } else if k == "4"@ {
        Some(0x15)
    } else if k == "6"@ {
        Some(0x16)
    } else if k == "5"@ {
        Some(0x17)
    } else if k == "="@ {
        Some(0x18)
    } else if k == "9"@ {
        Some(0x19)
    } else if k == "7"@ {
        Some(0x1A)
    } else if k == "-"@ {
        Some(0x1B)
    } else if k == "8"@ {
        Some(0x1C)
    } else if k == "0"@ {
        Some(0x1D)
    } else if k == "]"@ {
        Some(0x1E)
    } else if k == "o"@ {
        Some(0x1F)
    } else if k == "u"@ {
        Some(0x20)
    } else if k == "["@ {
        Some(0x21)
    } else if k == "i"@ {
        Some(0x22)
    } else if k == "p"@ {
        Some(0x23)
    } else if k == "return"@ || k == "enter"@ {
        Some(0x24)
    } else if k == "l"@ {
        Some(0x25)
    } else if k == "j"@ {
        Some(0x26)
    } else if k == "'"@ {
        Some(0x27)
    } else if k == "k"@ {
        Some(0x28)
    } else if k == ";"@ {
        Some(0x29)
    } else if k == "\\"@ {
        Some(0x2A)
    } else if k == ","@ {
        Some(0x2B)
    } else if k == "/"@ {
        Some(0x2C)
    } else if k == "n"@ {
        Some(0x2D)
    } else if k == "m"@ {
        Some(0x2E)
    } else if k == "."@ {
        Some(0x2F)
    } else if k == "tab"@ {
        Some(0x30)
    } else if k == "space"@ {
        Some(0x31)
    } else if k == "`"@ {
        Some(0x32)
    } else if k == "delete"@ || k == "backspace"@ {
        Some(0x33)
    } else if k == "escape"@ || k == "esc"@ {
        Some(0x35)
    } else if k == "f17"@ {
        Some(0x40)
    } else if k == "f18"@ {
        Some(0x4F)
    } else if k == "f19"@ {
        Some(0x50)
    } else if k == "f20"@ {
        Some(0x5A)
    } else if k == "f5"@ {
        Some(0x60)
    } else if k == "f6"@ {
        Some(0x61)
    } else if k == "f7"@ {
        Some(0x62)
    } else if k == "f3"@ {
        Some(0x63)
    } else if k == "f8"@ {
        Some(0x64)
    } else if k == "f9"@ {
        Some(0x65)
    } else if k == "f11"@ {
        Some(0x67)
    } else if k == "f13"@ {
        Some(0x69)
    } else if k == "f16"@ {
        Some(0x6A)
    } else if k == "f14"@ {
        Some(0x6B)
    } else if k == "f10"@ {
        Some(0x6D)
    } else if k == "f12"@ {
        Some(0x6F)
    } else if k == "f15"@ {
        Some(0x71)
    } else if k == "home"@ {
        Some(0x73)
    } else if k == "pageup"@ {
        Some(0x74)
    } else if k == "forwarddelete"@ {
        Some(0x75)
    } else if k == "f4"@ {
        Some(0x76)
    } else if k == "end"@ {
        Some(0x77)
    } else if k == "f2"@ {
        Some(0x78)
    } else if k == "pagedown"@ {
        Some(0x79)
    } else if k == "f1"@ {
        Some(0x7A)
    } else if k == "left"@ || k == "leftarrow"@ {
        Some(0x7B)
    } else if k == "right"@ || k == "rightarrow"@ {
        Some(0x7C)
    } else if k == "down"@ || k == "downarrow"@ {
        Some(0x7D)
    } else if k == "up"@ || k == "uparrow"@ {
        Some(0x7E)
    } else {
        None
    }
}

/// The hardware key code a named key is pressed with, if the name is known.
pub fn key_to_keycode(key: &str) -> (r: Option<u16>)
    ensures
        r == key_keycode_spec(crate::text::lower_seq(key@)),
{
    let kv = crate::text::chars_of(key);
    let k = crate::text::to_lower_vec(&kv);
    if crate::text::eq_str(&k, "a") {
        Some(0x00)
    } else if crate::text::eq_str(&k, "s") {
        Some(0x01)
    } else if crate::text::eq_str(&k, "d") {
        Some(0x02)
    } else if crate::text::eq_str(&k, "f") {
        Some(0x03)
    } else if crate::text::eq_str(&k, "h") {
        Some(0x04)
    } else if crate::text::eq_str(&k, "g") {
        Some(0x05)
    } else if crate::text::eq_str(&k, "z") {
        Some(0x06)
    } else if crate::text::eq_str(&k, "x") {
        Some(0x07)
    } else if crate::text::eq_str(&k, "c") {
        Some(0x08)
    } else if crate::text::eq_str(&k, "v") {
        Some(0x09)
    } else if crate::text::eq_str(&k, "b") {
        Some(0x0B)
    } else if crate::text::eq_str(&k, "q") {
        Some(0x0C)
    } else if crate::text::eq_str(&k, "w") {
        Some(0x0D)
    } else if crate::text::eq_str(&k, "e") {
        Some(0x0E)
    } else if crate::text::eq_str(&k, "r") {
        Some(0x0F)
    } else if crate::text::eq_str(&k, "y") {
        Some(0x10)
    } else if crate::text::eq_str(&k, "t") {
        Some(0x11)
    } else if crate::text::eq_str(&k, "1") {
        Some(0x12)
    } else if crate::text::eq_str(&k, "2") {
        Some(0x13)
    } else if crate::text::eq_str(&k, "3") {
        Some(0x14)
    } else if crate::text::eq_str(&k, "4") {
        Some(0x15)
    } else if crate::text::eq_str(&k, "6") {
        Some(0x16)
    } else if crate::text::eq_str(&k, "5") {
        Some(0x17)
    } else if crate::text::eq_str(&k, "=") {
        Some(0x18)
    } else if crate::text::eq_str(&k, "9") {
        Some(0x19)
    } else if crate::text::eq_str(&k, "7") {
        Some(0x1A)
    } else if crate::text::eq_str(&k, "-") {
        Some(0x1B)
    } else if crate::text::eq_str(&k, "8") {
        Some(0x1C)
    } else if crate::text::eq_str(&k, "0") {
        Some(0x1D)
    } else if crate::text::eq_str(&k, "]") {
        Some(0x1E)
    } else if crate::text::eq_str(&k, "o") {
        Some(0x1F)
    } else if crate::text::eq_str(&k, "u") {
        Some(0x20)
    } else if crate::text::eq_str(&k, "[") {
        Some(0x21)
    } else if crate::text::eq_str(&k, "i") {
        Some(0x22)
    } else if crate::text::eq_str(&k, "p") {
        Some(0x23)
    } else if crate::text::eq_str(&k, "return") || crate::text::eq_str(&k, "enter") {
        Some(0x24)
    } else if crate::text::eq_str(&k, "l") {
        Some(0x25)
    } else if crate::text::eq_str(&k, "j") {
        Some(0x26)
    } else if crate::text::eq_str(&k, "'") {
        Some(0x27)
    } else if crate::text::eq_str(&k, "k") {
        Some(0x28)
    } else if crate::text::eq_str(&k, ";") {
        Some(0x29)
    } else if crate::text::eq_str(&k, "\\") {
        Some(0x2A)
    } else if crate::text::eq_str(&k, ",") {
        Some(0x2B)
    } else if crate::text::eq_str(&k, "/") {
        Some(0x2C)
    } else if crate::text::eq_str(&k, "n") {
        Some(0x2D)
    } else if crate::text::eq_str(&k, "m") {
        Some(0x2E)
    } else if crate::text::eq_str(&k, ".") {
        Some(0x2F)
    } else if crate::text::eq_str(&k, "tab") {
        Some(0x30)
    } else if crate::text::eq_str(&k, "space") {
        Some(0x31)
    } else if crate::text::eq_str(&k, "`") {
        Some(0x32)
    } else if crate::text::eq_str(&k, "delete") || crate::text::eq_str(&k, "backspace") {
        Some(0x33)
    } else if crate::text::eq_str(&k, "escape") || crate::text::eq_str(&k, "esc") {
        Some(0x35)
    } else if crate::text::eq_str(&k, "f17") {
        Some(0x40)
    } else if crate::text::eq_str(&k, "f18") {
        Some(0x4F)
    } else if crate::text::eq_str(&k, "f19") {
        Some(0x50)
    } else if crate::text::eq_str(&k, "f20") {
        Some(0x5A)
    } else if crate::text::eq_str(&k, "f5") {
        Some(0x60)
    } else if crate::text::eq_str(&k, "f6") {
        Some(0x61)
    } else if crate::text::eq_str(&k, "f7") {
        Some(0x62)
    } else if crate::text::eq_str(&k, "f3") {
        Some(0x63)
    } else if crate::text::eq_str(&k, "f8") {
        Some(0x64)
    } else if crate::text::eq_str(&k, "f9") {
        Some(0x65)
    } else if crate::text::eq_str(&k, "f11") {
        Some(0x67)
    } else if crate::text::eq_str(&k, "f13") {
        Some(0x69)
    } else if crate::text::eq_str(&k, "f16") {
        Some(0x6A)
    } else if crate::text::eq_str(&k, "f14") {
        Some(0x6B)
    } else if crate::text::eq_str(&k, "f10") {
        Some(0x6D)
    } else if crate::text::eq_str(&k, "f12") {
        Some(0x6F)
    } else if crate::text::eq_str(&k, "f15") {
        Some(0x71)
    } else if crate::text::eq_str(&k, "home") {
        Some(0x73)
    } else if crate::text::eq_str(&k, "pageup") {
        Some(0x74)
    } else if crate::text::eq_str(&k, "forwarddelete") {
        Some(0x75)
    } else if crate::text::eq_str(&k, "f4") {
        Some(0x76)
    } else if crate::text::eq_str(&k, "end") {
        Some(0x77)
    } else if crate::text::eq_str(&k, "f2") {
        Some(0x78)
    } else if crate::text::eq_str(&k, "pagedown") {
        Some(0x79)
    } else if crate::text::eq_str(&k, "f1") {
        Some(0x7A)
    } else if crate::text::eq_str(&k, "left") || crate::text::eq_str(&k, "leftarrow") {
        Some(0x7B)
    } else if crate::text::eq_str(&k, "right") || crate::text::eq_str(&k, "rightarrow") {
        Some(0x7C)
    } else if crate::text::eq_str(&k, "down") || crate::text::eq_str(&k, "downarrow") {
        Some(0x7D)
    } else if crate::text::eq_str(&k, "up") || crate::text::eq_str(&k, "uparrow") {
        Some(0x7E)
    } else {
        None
    }
}

pub open spec fn special_key_spec(k: Seq<char>) -> Option<u8> {
    if k == "return"@ || k == "enter"@ {
        Some(36)
    } else if k == "tab"@ {
        Some(48)
    } else if k == "space"@ {
        Some(49)
    } else if k == "delete"@ || k == "backspace"@ {
        Some(51)
    } else if k == "escape"@ || k == "esc"@ {
        Some(53)
    } else if k == "left"@ || k == "leftarrow"@ {
        Some(123)
    } else if k == "right"@ || k == "rightarrow"@ {
        Some(124)
    } else if k == "down"@ || k == "downarrow"@ {
        Some(125)
    } else if k == "up"@ || k == "uparrow"@ {
        Some(126)
    } else {
        None
    }
}

/// The key code of a key that cannot be sent as a keystroke: return, tab,
/// the arrows and their kin.
pub fn special_key_code(key: &str) -> (r: Option<u8>)
    ensures
        r == special_key_spec(crate::text::lower_seq(key@)),
{
    let kv = crate::text::chars_of(key);
    let k = crate::text::to_lower_vec(&kv);
    if crate::text::eq_str(&k, "return") || crate::text::eq_str(&k, "enter") {
        Some(36)
    } else if crate::text::eq_str(&k, "tab") {
        Some(48)
    } else if crate::text::eq_str(&k, "space") {
        Some(49)
    } else if crate::text::eq_str(&k, "delete") || crate::text::eq_str(&k, "backspace") {
        Some(51)
    } else if crate::text::eq_str(&k, "escape") || crate::text::eq_str(&k, "esc") {
        Some(53)
    } else if crate::text::eq_str(&k, "left") || crate::text::eq_str(&k, "leftarrow") {
        Some(123)
    } else if crate::text::eq_str(&k, "right") || crate::text::eq_str(&k, "rightarrow") {
        Some(124)
    } else if crate::text::eq_str(&k, "down") || crate::text::eq_str(&k, "downarrow") {
        Some(125)
    } else if crate::text::eq_str(&k, "up") || crate::text::eq_str(&k, "uparrow") {
        Some(126)
    } else {
        None
    }
}

} // verus!
