//! Keyboard scancode translation for the PS/2 set-1 layout.
//!
//! A scancode from the keyboard controller maps to a key symbol: either a
//! printable character's code or a synthetic code for a modifier, function
//! or keypad key. Unknown or out-of-table scancodes map to the zero symbol.

use vstd::prelude::*;

verus! {

/// The set-1 translation table: the key symbol for each scancode below the
/// table length, zero where no key is assigned.
pub open spec fn spec_set1_entry(scancode: u8) -> u16 {
    match scancode {
        0 => 0x0000,
        1 => 0x001b,
        2 => 0x0031,
        3 => 0x0032,
        4 => 0x0033,
        5 => 0x0034,
        6 => 0x0035,
        7 => 0x0036,
        8 => 0x0037,
        9 => 0x0038,
        10 => 0x0039,
        11 => 0x0030,
        12 => 0x002d,
        13 => 0x003d,
        14 => 0x0008,
        15 => 0x0009,
        16 => 0x0051,
        17 => 0x0057,
        18 => 0x0045,
        19 => 0x0052,
        20 => 0x0054,
        21 => 0x0059,
        22 => 0x0055,
        23 => 0x0049,
        24 => 0x004f,
        25 => 0x0050,
        26 => 0x005b,
        27 => 0x005d,
        28 => 0x000a,
        29 => 0x0100,
        30 => 0x0041,
        31 => 0x0053,
        32 => 0x0044,
        33 => 0x0046,
        34 => 0x0047,
        35 => 0x0048,
        36 => 0x004a,
        37 => 0x004b,
        38 => 0x004c,
        39 => 0x003b,
        40 => 0x0027,
        41 => 0x0060,
        42 => 0x0200,
        43 => 0x005c,
        44 => 0x005a,
        45 => 0x0058,
        46 => 0x0043,
        47 => 0x0056,
        48 => 0x0042,
        49 => 0x004e,
        50 => 0x004d,
        51 => 0x002c,
        52 => 0x002e,
        53 => 0x002f,
        54 => 0x0300,
        55 => 0x0400,
        56 => 0x0500,
        57 => 0x0020,
        58 => 0x0600,
        59 => 0x0701,
        60 => 0x0702,
        61 => 0x0703,
        62 => 0x0704,
        63 => 0x0705,
        64 => 0x0706,
        65 => 0x0707,
        66 => 0x0708,
        67 => 0x0709,
        68 => 0x070a,
        69 => 0x0800,
        70 => 0x0900,
        71 => 0x0417,
        72 => 0x0418,
        73 => 0x0419,
        74 => 0x041a,
        75 => 0x0414,
        76 => 0x0415,
        77 => 0x0416,
        78 => 0x041b,
        79 => 0x0411,
        80 => 0x0412,
        81 => 0x0413,
        82 => 0x0410,
        83 => 0x041c,
        84 => 0x0000,
        85 => 0x0000,
        86 => 0x0000,
        87 => 0x070b,
        88 => 0x070c,
        _ => 0,
    }
}

/// Number of scancodes the set-1 table covers.
pub const SET1_LEN: u8 = 89;

/// Looks up the set-1 table.
fn set1_entry(scancode: u8) -> (r: u16)
    ensures
        r == spec_set1_entry(scancode),
{
    match scancode {
        0 => 0x0000,
        1 => 0x001b,
        2 => 0x0031,
        3 => 0x0032,
        4 => 0x0033,
        5 => 0x0034,
        6 => 0x0035,
        7 => 0x0036,
        8 => 0x0037,
        9 => 0x0038,
        10 => 0x0039,
        11 => 0x0030,
        12 => 0x002d,
        13 => 0x003d,
        14 => 0x0008,
        15 => 0x0009,
        16 => 0x0051,
        17 => 0x0057,
        18 => 0x0045,
        19 => 0x0052,
        20 => 0x0054,
        21 => 0x0059,
        22 => 0x0055,
        23 => 0x0049,
        24 => 0x004f,
        25 => 0x0050,
        26 => 0x005b,
        27 => 0x005d,
        28 => 0x000a,
        29 => 0x0100,
        30 => 0x0041,
        31 => 0x0053,
        32 => 0x0044,
        33 => 0x0046,
        34 => 0x0047,
        35 => 0x0048,
        36 => 0x004a,
        37 => 0x004b,
        38 => 0x004c,
        39 => 0x003b,
        40 => 0x0027,
        41 => 0x0060,
        42 => 0x0200,
        43 => 0x005c,
        44 => 0x005a,
        45 => 0x0058,
        46 => 0x0043,
        47 => 0x0056,
        48 => 0x0042,
        49 => 0x004e,
        50 => 0x004d,
        51 => 0x002c,
        52 => 0x002e,
        53 => 0x002f,
        54 => 0x0300,
        55 => 0x0400,
        56 => 0x0500,
        57 => 0x0020,
        58 => 0x0600,
        59 => 0x0701,
        60 => 0x0702,
        61 => 0x0703,
        62 => 0x0704,
        63 => 0x0705,
        64 => 0x0706,
        65 => 0x0707,
        66 => 0x0708,
        67 => 0x0709,
        68 => 0x070a,
        69 => 0x0800,
        70 => 0x0900,
        71 => 0x0417,
        72 => 0x0418,
        73 => 0x0419,
        74 => 0x041a,
        75 => 0x0414,
        76 => 0x0415,
        77 => 0x0416,
        78 => 0x041b,
        79 => 0x0411,
        80 => 0x0412,
        81 => 0x0413,
        82 => 0x0410,
        83 => 0x041c,
        84 => 0x0000,
        85 => 0x0000,
        86 => 0x0000,
        87 => 0x070b,
        88 => 0x070c,
        _ => 0,
    }
}

/// A key symbol: a character code or a synthetic key code, zero when
/// unknown.
#[derive(Clone, Copy, Debug, PartialEq, Eq, Structural)]
pub struct Keysym(pub u16);

impl Keysym {
    /// The symbol with code `key`.
    pub fn from(key: u16) -> (r: Keysym)
        ensures
            r.0 == key,
    {
        Keysym(key)
    }

    /// The unknown-key symbol.
    pub fn key_unknown() -> (r: Keysym)
        ensures
            r.0 == 0,
    {
        Keysym(0)
    }

    /// Whether this is the unknown-key symbol.
    pub fn is_unknown(&self) -> (r: bool)
        ensures
            r == (self.0 == 0),
    {
        self.0 == 0
    }

    /// The symbol's raw code.
    pub fn as_u16(&self) -> (r: u16)
        ensures
            r == self.0,
    {
        self.0
    }
}

/// The key symbol a scancode translates to: the table entry inside the
/// table, the unknown symbol outside it or where the table holds zero.
pub open spec fn spec_scancode_to_keysym(scancode: u8) -> Keysym {
    if scancode >= SET1_LEN {
        Keysym(0)
    } else {
        Keysym(spec_set1_entry(scancode))
    }
}

/// Translates a scancode to its key symbol.
pub fn scancode_to_keysym(scancode: u8) -> (r: Keysym)
    ensures
        r == spec_scancode_to_keysym(scancode),
{
    if scancode >= SET1_LEN {
        return Keysym::key_unknown();
    }
    let key = set1_entry(scancode);
    if key == 0 {
        return Keysym::key_unknown();
    }
    Keysym::from(key)
}

/// The printable byte a scancode translates to, if any: the table entry
/// when it is a printable character, backspace, tab, line feed or carriage
/// return.
pub open spec fn spec_scancode_to_ascii(scancode: u8) -> Option<u8> {
    if scancode >= SET1_LEN {
        None
    } else {
        let key = spec_set1_entry(scancode);
        if (0x20 <= key <= 0x7e) || key == 0x08 || key == 0x09 || key == 0x0a || key == 0x0d {
            Some(key as u8)
        } else {
            None
        }
    }
}

/// Translates a scancode to a printable byte, if it has one.
pub fn scancode_to_ascii(scancode: u8) -> (r: Option<u8>)
    ensures
        r == spec_scancode_to_ascii(scancode),
{
    if scancode >= SET1_LEN {
        return None;
    }
    let key = set1_entry(scancode);
    if (0x20 <= key && key <= 0x7e) || key == 0x08 || key == 0x09 || key == 0x0a || key == 0x0d {
        Some(key as u8)
    } else {
        None
    }
}

} // verus!
