//! The pitch-class colour law: each of the twelve pitch classes maps to a
//! fixed point on the hue circle, ordered by the circle of fifths, and the hue
//! is converted to RGB at full saturation and value.

use vstd::prelude::*;

verus! {

/// The twelve pitch classes. Key index 0 is the lowest piano key, an A, so an
/// index taken modulo 12 starts the cycle at `A`.
#[derive(Debug)]
pub enum Key {
    C,
    Db,
    D,
    Eb,
    E,
    F,
    Gb,
    G,
    Ab,
    A,
    Bb,
    B,
}

/// The pitch class of a key index (or of any note count from the lowest key),
/// taken modulo 12 with index 0 on `A`.
pub open spec fn spec_key_of(n: int) -> Key {
    let r = n % 12;
    if r == 0 {
        Key::A
    } else if r == 1 {
        Key::Bb
    } else if r == 2 {
        Key::B
    } else if r == 3 {
        Key::C
    } else if r == 4 {
        Key::Db
    } else if r == 5 {
        Key::D
    } else if r == 6 {
        Key::Eb
    } else if r == 7 {
        Key::E
    } else if r == 8 {
        Key::F
    } else if r == 9 {
        Key::Gb
    } else if r == 10 {
        Key::G
    } else {
        Key::Ab
    }
}

/// The hue assigned to each pitch class: `C` sits at 0 degrees and each step
/// of a perfect fifth advances by 30 degrees. `Bb` and `F` share 330 degrees;
/// the collision is a deliberate feature of the palette.
pub open spec fn spec_hue(key: Key) -> int {
    match key {
        Key::C => 0,
        Key::G => 30,
        Key::D => 60,
        Key::A => 90,
        Key::E => 120,
        Key::B => 150,
        Key::Gb => 180,
        Key::Db => 210,
        Key::Ab => 240,
        Key::Eb => 270,
        Key::Bb => 330,
        Key::F => 330,
    }
}

/// The middle channel of the hue-to-RGB conversion at full saturation and
/// value: `x = 1 - |((hue/60) mod 2) - 1|`, scaled to the 0..255 range by
/// truncation. For a hue that is a multiple of 30 this is exact integer
/// arithmetic: the scaled channel is 0, 127 or 255.
pub open spec fn spec_mid_channel(hue: int) -> u8 {
    let t = (hue / 30) % 4;
    let d = if t >= 2 {
        t - 2
    } else {
        2 - t
    };
    ((255 * (2 - d)) / 2) as u8
}

/// Hue to RGB at full saturation and value: chroma is 1, the match value is 0,
/// and the 60-degree sextant of the hue selects which channels carry the
/// chroma and the middle value.
pub open spec fn spec_rgb_for_hue(hue: int) -> (u8, u8, u8) {
    let x = spec_mid_channel(hue);
    if hue < 60 {
        (255u8, x, 0u8)
    } else if hue < 120 {
        (x, 255u8, 0u8)
    } else if hue < 180 {
        (0u8, 255u8, x)
    } else if hue < 240 {
        (0u8, x, 255u8)
    } else if hue < 300 {
        (x, 0u8, 255u8)
    } else {
        (255u8, 0u8, x)
    }
}

/// The colour of a pitch class: its circle-of-fifths hue converted to RGB.
pub open spec fn spec_colour(key: Key) -> (u8, u8, u8) {
    spec_rgb_for_hue(spec_hue(key))
}

/// The colour shown for key index `k`: the colour of its pitch class.
pub open spec fn spec_colour_of_key_index(k: int) -> (u8, u8, u8) {
    spec_colour(spec_key_of(k))
}

/// Hue to RGB at full saturation and value, for hues on the 30-degree grid,
/// where the conversion is exact in integers.
fn hue_to_rgb(hue: u32) -> (rgb: (u8, u8, u8))
    requires
        hue < 360,
        hue % 30 == 0,
    ensures
        rgb == spec_rgb_for_hue(hue as int),
{
    let t = (hue / 30) % 4;
    let d = if t >= 2 {
        t - 2
    } else {
        2 - t
    };
    let x = ((255 * (2 - d)) / 2) as u8;
    if hue < 60 {
        (255, x, 0)
    } else if hue < 120 {
        (x, 255, 0)
    } else if hue < 180 {
        (0, 255, x)
    } else if hue < 240 {
        (0, x, 255)
    } else if hue < 300 {
        (x, 0, 255)
    } else {
        (255, 0, x)
    }
}

impl Key {
    /// The pitch class of a count of semitones above the lowest piano key:
    /// key index 0 is an A, and the classes cycle chromatically from there.
    pub fn from_note_number(note_number: u8) -> (key: Self)
        ensures
            key == spec_key_of(note_number as int),
    {
        match note_number % 12 {
            0 => Key::A,
            1 => Key::Bb,
            2 => Key::B,
            3 => Key::C,
            4 => Key::Db,
            5 => Key::D,
            6 => Key::Eb,
            7 => Key::E,
            8 => Key::F,
            9 => Key::Gb,
            10 => Key::G,
            _ => Key::Ab,
        }
    }

    /// The RGB colour of this pitch class under the circle-of-fifths palette.
    pub fn get_colour(self) -> (rgb: (u8, u8, u8))
        ensures
            rgb == spec_colour(self),
    {
        match self {
            Key::C => hue_to_rgb(0),
            Key::G => hue_to_rgb(30),
            Key::D => hue_to_rgb(60),
            Key::A => hue_to_rgb(90),
            Key::E => hue_to_rgb(120),
            Key::B => hue_to_rgb(150),
            Key::Gb => hue_to_rgb(180),
            Key::Db => hue_to_rgb(210),
            Key::Ab => hue_to_rgb(240),
            Key::Eb => hue_to_rgb(270),
            Key::Bb => hue_to_rgb(330),
            Key::F => hue_to_rgb(330),
        }
    }
}

} // verus!
