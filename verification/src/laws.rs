//! Laws of the visualizer: how decoding and rendering compose, stated over
//! the same spec functions that the executable contracts use.

use vstd::prelude::*;

use crate::visualizer::{
    spec_decode_keys, spec_decode_pedal, spec_key_index, spec_lit_pixel, spec_render,
};

verus! {

/// Pressing a key lights its own cell of an 88-wide strip in its pitch-class
/// colour, and the matching release turns that cell opaque black again.
pub proof fn lemma_note_on_then_off(keys: Seq<u8>, k: int, v: u8)
    requires
        keys.len() == 88,
        0 <= k < 88,
        v > 0,
    ensures
        ({
            let lit = spec_decode_keys(keys, seq![0x90u8, (21 + k) as u8, v]);
            let dark = spec_decode_keys(lit, seq![0x80u8, (21 + k) as u8, 0u8]);
            &&& spec_render(lit, 88)[k] == spec_lit_pixel(k)
            &&& spec_render(dark, 88)[k] == (0u8, 0u8, 0u8, 255u8)
        }),
{
    assert(0x90u8 & 0xF0u8 == 0x90u8) by (bit_vector);
    assert(0x80u8 & 0xF0u8 == 0x80u8) by (bit_vector);
    lemma_own_cell(k);
}

/// Pressing a key, releasing it, and pressing it again at any nonzero level
/// leaves it lit: the intensity gates the colour on and off, and the
/// magnitude of the second press does not matter.
pub proof fn lemma_velocity_round_trip(keys: Seq<u8>, k: int, v1: u8, v2: u8)
    requires
        keys.len() == 88,
        0 <= k < 88,
        v1 > 0,
        v2 > 0,
    ensures
        ({
            let s1 = spec_decode_keys(keys, seq![0x90u8, (21 + k) as u8, v1]);
            let s2 = spec_decode_keys(s1, seq![0x80u8, (21 + k) as u8, 0u8]);
            let s3 = spec_decode_keys(s2, seq![0x90u8, (21 + k) as u8, v2]);
            &&& s3[k] == v2
            &&& spec_render(s3, 88)[k] == spec_lit_pixel(k)
        }),
{
    assert(0x90u8 & 0xF0u8 == 0x90u8) by (bit_vector);
    assert(0x80u8 & 0xF0u8 == 0x80u8) by (bit_vector);
    lemma_own_cell(k);
}

/// Rendering is a pure function of the key state and the width: two strips
/// rendered from the same state with no intervening message are identical.
pub proof fn lemma_render_idempotent(
    keys: Seq<u8>,
    width: int,
    first: Seq<(u8, u8, u8, u8)>,
    second: Seq<(u8, u8, u8, u8)>,
)
    requires
        first == spec_render(keys, width),
        second == spec_render(keys, width),
    ensures
        first == second,
{
}

/// A message that is not exactly three bytes long changes neither the key
/// intensities nor the pedal level.
pub proof fn lemma_malformed_ignored(keys: Seq<u8>, pedal: u8, msg: Seq<u8>)
    requires
        msg.len() != 3,
    ensures
        spec_decode_keys(keys, msg) == keys,
        spec_decode_pedal(pedal, msg) == pedal,
{
}

/// A note event whose note number lies outside the 88-key range, below 21 or
/// above 108, is discarded: no key intensity changes.
pub proof fn lemma_out_of_range_note_ignored(keys: Seq<u8>, msg: Seq<u8>)
    requires
        msg.len() == 3,
        msg[1] < 21 || msg[1] > 108,
    ensures
        spec_decode_keys(keys, msg) == keys,
{
}

/// A control-change message never alters any key intensity, whether or not it
/// addresses the sustain pedal.
pub proof fn lemma_control_change_keys_unchanged(keys: Seq<u8>, msg: Seq<u8>)
    requires
        msg.len() == 3,
        msg[0] & 0xF0 == 0xB0,
    ensures
        spec_decode_keys(keys, msg) == keys,
{
}

/// On an 88-wide strip each key projects onto its own cell.
proof fn lemma_own_cell(k: int)
    requires
        0 <= k < 88,
    ensures
        spec_key_index(k, 88) == k,
{
    vstd::arithmetic::div_mod::lemma_div_multiples_vanish(k, 88);
}

} // verus!
