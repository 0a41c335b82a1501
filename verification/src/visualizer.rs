//! The visualizer core: an 88-key intensity store plus a sustain-pedal level,
//! a decoder for raw 3-byte channel-voice messages, and a renderer that
//! projects the key state onto an RGBA pixel strip of a fixed width.
//!
//! Every call of the decoder, whether or not the message changes any state,
//! ends with a full re-render of the pixel strip; there is no dirty tracking.

use vstd::arithmetic::div_mod::{lemma_div_pos_is_pos, lemma_multiply_divide_lt};
use vstd::prelude::*;

use crate::color::{spec_colour_of_key_index, Key};

verus! {

/// The pixel shown for a lit key: the key's pitch-class colour at full
/// opacity.
pub open spec fn spec_lit_pixel(k: int) -> (u8, u8, u8, u8) {
    let c = spec_colour_of_key_index(k);
    (c.0, c.1, c.2, 255u8)
}

/// The key index that pixel `i` of a strip of the given width shows: a
/// nearest-neighbour projection of the 88 keys onto the strip.
pub open spec fn spec_key_index(i: int, width: int) -> int {
    i * 88 / width
}

/// The pixel at index `i` of a strip of the given width: the pitch-class
/// colour of the projected key if that key is lit, opaque black otherwise.
/// Intensity gates on and off only; its magnitude does not shade the colour.
pub open spec fn spec_pixel(keys: Seq<u8>, width: int, i: int) -> (u8, u8, u8, u8) {
    let k = spec_key_index(i, width);
    if keys[k] > 0 {
        spec_lit_pixel(k)
    } else {
        (0u8, 0u8, 0u8, 255u8)
    }
}

/// The full rendered strip: one pixel per output index.
pub open spec fn spec_render(keys: Seq<u8>, width: int) -> Seq<(u8, u8, u8, u8)> {
    Seq::new(width as nat, |i: int| spec_pixel(keys, width, i))
}

/// The key index a note number stands for, if any: note 21 is the lowest
/// piano key and note 108 the highest; anything outside that range is out of
/// the representable range and is discarded.
pub open spec fn spec_note_key_index(note: u8) -> Option<u8> {
    if 21 <= note && note <= 108 {
        Some((note - 21) as u8)
    } else {
        None
    }
}

/// What a raw message does to the key intensities. Only a 3-byte message with
/// a note-on or note-off status nibble and an in-range note number changes
/// them: note-on overwrites the key's intensity with the data byte, note-off
/// zeroes it whatever the supplied release velocity. A note-on with data byte
/// 0 stays a note-on at zero intensity; it is not remapped to a note-off.
pub open spec fn spec_decode_keys(keys: Seq<u8>, msg: Seq<u8>) -> Seq<u8> {
    if msg.len() == 3 {
        let status = msg[0] & 0xF0;
        if status == 0x90 && spec_note_key_index(msg[1]) is Some {
            keys.update(msg[1] - 21, msg[2])
        } else if status == 0x80 && spec_note_key_index(msg[1]) is Some {
            keys.update(msg[1] - 21, 0u8)
        } else {
            keys
        }
    } else {
        keys
    }
}

/// What a raw message does to the pedal level: only a 3-byte control-change
/// message for controller 64, the sustain pedal, overwrites it.
pub open spec fn spec_decode_pedal(pedal: u8, msg: Seq<u8>) -> u8 {
    if msg.len() == 3 && (msg[0] & 0xF0) == 0xB0 && msg[1] == 64 {
        msg[2]
    } else {
        pedal
    }
}

/// The projected key index of every pixel of a strip lies within the 88 keys.
pub proof fn lemma_key_index_in_range(i: int, width: int)
    requires
        0 <= i < width,
    ensures
        0 <= spec_key_index(i, width) < 88,
{
    assert(i * 88 < width * 88) by (nonlinear_arith)
        requires
            0 <= i < width,
    ;
    lemma_multiply_divide_lt(i * 88, width, 88);
    lemma_div_pos_is_pos(i * 88, width);
}

/// The visualizer: the key state, the pedal level, and the last rendered
/// strip, which is kept equal to the render of the current state.
pub struct Visualizer {
    /// RGBA pixels, one per cell of the strip; the length is the width fixed
    /// at construction.
    pixels: Vec<(u8, u8, u8, u8)>,
    /// Intensity of each of the 88 keys, as the raw data byte of the last
    /// note-on (0 to 127); the modelled intensity is this level over 127.
    keys: Vec<u8>,
    /// Last seen sustain-pedal level, as the raw data byte (0 to 127);
    /// recorded but not consumed by rendering.
    pedal: u8,
}

impl Visualizer {
    /// The 88 key intensity levels, lowest key first.
    pub closed spec fn key_intensities(self) -> Seq<u8> {
        self.keys@
    }

    /// The last seen sustain-pedal level.
    pub closed spec fn pedal_level(self) -> u8 {
        self.pedal
    }

    /// The rendered strip as last recomputed.
    pub closed spec fn pixel_view(self) -> Seq<(u8, u8, u8, u8)> {
        self.pixels@
    }

    /// The width of the strip, fixed at construction.
    pub closed spec fn width(self) -> int {
        self.pixels@.len() as int
    }

    /// Well-formedness: 88 keys, a positive width that fits the construction
    /// parameter, and a pixel strip that is exactly the render of the current
    /// key state.
    pub open spec fn wf(self) -> bool {
        &&& self.key_intensities().len() == 88
        &&& 1 <= self.width() <= 0xFFFF_FFFF
        &&& self.pixel_view() == spec_render(self.key_intensities(), self.width())
    }

    /// A visualizer for a strip of the given positive width, with every key
    /// dark and the pedal released.
    pub fn new(width: u32) -> (v: Visualizer)
        requires
            1 <= width,
        ensures
            v.wf(),
            v.width() == width,
            v.key_intensities() == Seq::new(88, |i: int| 0u8),
            v.pedal_level() == 0,
    {
        let w = width as usize;
        let mut pixels: Vec<(u8, u8, u8, u8)> = Vec::new();
        let mut i: usize = 0;
        while i < w
            invariant
                i <= w,
                pixels@.len() == i,
            decreases w - i,
        {
            pixels.push((0, 0, 0, 255));
            i += 1;
        }
        let mut keys: Vec<u8> = Vec::new();
        let mut j: usize = 0;
        while j < 88
            invariant
                j <= 88,
                keys@.len() == j,
                forall|t: int| 0 <= t < j ==> keys@[t] == 0u8,
            decreases 88 - j,
        {
            keys.push(0);
            j += 1;
        }
        let mut v = Visualizer { pixels, keys, pedal: 0 };
        proof {
            assert(v.keys@ =~= Seq::new(88, |i: int| 0u8));
        }
        v.draw_pixels();
        v
    }

    /// Overwrite the intensity of one key with the given level.
    fn note_on(&mut self, key: usize, level: u8)
        requires
            key < old(self).keys@.len(),
        ensures
            final(self).keys@ == old(self).keys@.update(key as int, level),
            final(self).pedal == old(self).pedal,
            final(self).pixels@ == old(self).pixels@,
    {
        self.keys[key] = level;
    }

    /// Zero the intensity of one key, whatever it was.
    fn note_off(&mut self, key: usize)
        requires
            key < old(self).keys@.len(),
        ensures
            final(self).keys@ == old(self).keys@.update(key as int, 0u8),
            final(self).pedal == old(self).pedal,
            final(self).pixels@ == old(self).pixels@,
    {
        self.keys[key] = 0;
    }

    /// Record a new sustain-pedal level.
    fn set_pedal(&mut self, level: u8)
        ensures
            final(self).pedal == level,
            final(self).keys@ == old(self).keys@,
            final(self).pixels@ == old(self).pixels@,
    {
        self.pedal = level;
    }

    /// The key index a note number stands for, or `None` for a note outside
    /// the 88-key range: a checked conversion, so that an out-of-range note is
    /// discarded instead of faulting.
    fn key_index_of_note(note: u8) -> (r: Option<u8>)
        ensures
            r == spec_note_key_index(note),
    {
        if 21 <= note && note <= 108 {
            Some(note - 21)
        } else {
            None
        }
    }

    /// Recompute the whole pixel strip from the current key state.
    fn draw_pixels(&mut self)
        requires
            old(self).keys@.len() == 88,
            old(self).pixels@.len() <= 0xFFFF_FFFF,
        ensures
            final(self).keys@ == old(self).keys@,
            final(self).pedal == old(self).pedal,
            final(self).pixels@.len() == old(self).pixels@.len(),
            final(self).pixels@ == spec_render(old(self).keys@, old(self).pixels@.len() as int),
    {
        let w = self.pixels.len();
        let mut out: Vec<(u8, u8, u8, u8)> = Vec::new();
        let mut i: usize = 0;
        while i < w
            invariant
                i <= w,
                w == self.pixels@.len(),
                w <= 0xFFFF_FFFF,
                self.keys@ == old(self).keys@,
                self.pedal == old(self).pedal,
                self.pixels@ == old(self).pixels@,
                self.keys@.len() == 88,
                out@.len() == i,
                forall|j: int| 0 <= j < i ==> out@[j] == spec_pixel(self.keys@, w as int, j),
            decreases w - i,
        {
            proof {
                lemma_key_index_in_range(i as int, w as int);
            }
            let k = ((i as u64) * 88 / (w as u64)) as usize;
            let colour = if self.keys[k] > 0 {
                let (r, g, b) = Key::from_note_number(k as u8).get_colour();
                (r, g, b, 255u8)
            } else {
                (0u8, 0u8, 0u8, 255u8)
            };
            out.push(colour);
            i += 1;
        }
        self.pixels = out;
        proof {
            assert(self.pixels@ =~= spec_render(self.keys@, w as int));
        }
    }

    /// Decode one raw message and re-render the strip. A message that is not
    /// exactly 3 bytes long, carries an unrecognized status nibble, or names a
    /// note outside the 88-key range changes no state; the strip is recomputed
    /// from the (possibly unchanged) state on every call.
    pub fn receive_message(&mut self, message: &[u8])
        requires
            old(self).wf(),
        ensures
            final(self).wf(),
            final(self).width() == old(self).width(),
            final(self).key_intensities() == spec_decode_keys(
                old(self).key_intensities(),
                message@,
            ),
            final(self).pedal_level() == spec_decode_pedal(old(self).pedal_level(), message@),
            final(self).pixel_view() == spec_render(
                final(self).key_intensities(),
                final(self).width(),
            ),
    {
        if message.len() == 3 {
            let status = message[0] & 0xF0;
            let note = message[1];
            let data = message[2];
            match status {
                0x90 => {
                    if let Some(k) = Self::key_index_of_note(note) {
                        self.note_on(k as usize, data);
                    }
                },
                0x80 => {
                    if let Some(k) = Self::key_index_of_note(note) {
                        self.note_off(k as usize);
                    }
                },
                0xB0 => {
                    if note == 64 {
                        self.set_pedal(data);
                    }
                },
                _ => {},
            }
        }
        self.draw_pixels();
    }

    /// Advance one frame. The visualizer holds no time-dependent state, so
    /// this changes nothing.
    pub fn step(&mut self)
        ensures
            *final(self) == *old(self),
    {
    }

    /// The rendered strip flattened to bytes: four channels, red, green, blue
    /// and alpha, for each pixel in order.
    pub fn get_pixels(&self) -> (r: Vec<u8>)
        ensures
            r@.len() == 4 * self.pixel_view().len(),
            forall|i: int|
                0 <= i < self.pixel_view().len() ==> {
                    let p = #[trigger] self.pixel_view()[i];
                    &&& r@[4 * i] == p.0
                    &&& r@[4 * i + 1] == p.1
                    &&& r@[4 * i + 2] == p.2
                    &&& r@[4 * i + 3] == p.3
                },
    {
        let n = self.pixels.len();
        let mut out: Vec<u8> = Vec::new();
        let mut i: usize = 0;
        while i < n
            invariant
                i <= n,
                n == self.pixels@.len(),
                out@.len() == 4 * i,
                forall|j: int|
                    0 <= j < i ==> {
                        let p = #[trigger] self.pixels@[j];
                        &&& out@[4 * j] == p.0
                        &&& out@[4 * j + 1] == p.1
                        &&& out@[4 * j + 2] == p.2
                        &&& out@[4 * j + 3] == p.3
                    },
            decreases n - i,
        {
            let p = self.pixels[i];
            out.push(p.0);
            out.push(p.1);
            out.push(p.2);
            out.push(p.3);
            i += 1;
        }
        out
    }

    /// The intensity level of one key, 0 to 127; zero means dark.
    pub fn intensity(&self, key: usize) -> (r: u8)
        requires
            self.wf(),
            key < 88,
        ensures
            r == self.key_intensities()[key as int],
    {
        self.keys[key]
    }

    /// The last seen sustain-pedal level, 0 to 127.
    pub fn pedal_value(&self) -> (r: u8)
        ensures
            r == self.pedal_level(),
    {
        self.pedal
    }
}

} // verus!
