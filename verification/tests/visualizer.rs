use midi_colors::color::Key;
use midi_colors::visualizer::Visualizer;

fn quad(buf: &[u8], i: usize) -> (u8, u8, u8, u8) {
    (buf[4 * i], buf[4 * i + 1], buf[4 * i + 2], buf[4 * i + 3])
}

const DARK: (u8, u8, u8, u8) = (0, 0, 0, 255);

#[test]
fn new_starts_dark() {
    let v = Visualizer::new(88);
    let buf = v.get_pixels();
    assert_eq!(buf.len(), 88 * 4);
    for i in 0..88 {
        assert_eq!(quad(&buf, i), DARK);
        assert_eq!(v.intensity(i), 0);
    }
    assert_eq!(v.pedal_value(), 0);
}

#[test]
fn note_on_lights_key_in_its_colour() {
    let mut v = Visualizer::new(88);
    v.receive_message(&[0x90, 60, 127]);
    assert_eq!(v.intensity(39), 127);
    let buf = v.get_pixels();
    // key 39 has pitch class 39 mod 12 = 3, a C: hue 0, pure red
    assert_eq!(quad(&buf, 39), (255, 0, 0, 255));
    for i in 0..88 {
        if i != 39 {
            assert_eq!(quad(&buf, i), DARK);
        }
    }
}

#[test]
fn note_off_darkens_key() {
    let mut v = Visualizer::new(88);
    v.receive_message(&[0x90, 60, 127]);
    v.receive_message(&[0x80, 60, 0]);
    assert_eq!(v.intensity(39), 0);
    let buf = v.get_pixels();
    assert_eq!(quad(&buf, 39), DARK);
}

#[test]
fn render_is_idempotent_between_messages() {
    let mut v = Visualizer::new(88);
    v.receive_message(&[0x90, 60, 127]);
    let first = v.get_pixels();
    let second = v.get_pixels();
    assert_eq!(first, second);
    // a malformed message re-renders from unchanged state: same buffer again
    v.receive_message(&[0x90, 60]);
    let third = v.get_pixels();
    assert_eq!(first, third);
}

#[test]
fn velocity_round_trip_keeps_key_lit() {
    let mut v = Visualizer::new(88);
    v.receive_message(&[0x90, 60, 127]);
    v.receive_message(&[0x80, 60, 0]);
    v.receive_message(&[0x90, 60, 64]);
    assert_eq!(v.intensity(39), 64);
    let buf = v.get_pixels();
    assert_eq!(quad(&buf, 39), (255, 0, 0, 255));
}

#[test]
fn short_and_long_messages_change_nothing() {
    let mut v = Visualizer::new(88);
    v.receive_message(&[]);
    v.receive_message(&[0x90]);
    v.receive_message(&[0x90, 60]);
    v.receive_message(&[0x90, 60, 127, 0]);
    for i in 0..88 {
        assert_eq!(v.intensity(i), 0);
    }
    assert_eq!(v.pedal_value(), 0);
    let buf = v.get_pixels();
    for i in 0..88 {
        assert_eq!(quad(&buf, i), DARK);
    }
}

#[test]
fn out_of_range_notes_are_discarded() {
    let mut v = Visualizer::new(88);
    v.receive_message(&[0x90, 10, 64]);
    v.receive_message(&[0x90, 20, 64]);
    v.receive_message(&[0x90, 109, 64]);
    v.receive_message(&[0x80, 10, 64]);
    for i in 0..88 {
        assert_eq!(v.intensity(i), 0);
    }
    let buf = v.get_pixels();
    for i in 0..88 {
        assert_eq!(quad(&buf, i), DARK);
    }
}

#[test]
fn double_width_maps_two_pixels_to_one_key() {
    let mut v = Visualizer::new(176);
    v.receive_message(&[0x90, 21, 100]);
    let buf = v.get_pixels();
    assert_eq!(buf.len(), 176 * 4);
    // key 0 is an A: hue 90 gives (127, 255, 0)
    assert_eq!(quad(&buf, 0), (127, 255, 0, 255));
    assert_eq!(quad(&buf, 1), (127, 255, 0, 255));
    // pixel 2 projects onto key 1, which is dark
    assert_eq!(quad(&buf, 2), DARK);
}

#[test]
fn narrow_width_skips_keys() {
    let mut v = Visualizer::new(22);
    // pixel i shows key i * 88 / 22 = 4 * i; light key 4 (note 25)
    v.receive_message(&[0x90, 25, 80]);
    let buf = v.get_pixels();
    assert_eq!(buf.len(), 22 * 4);
    // key 4 has pitch class 4, a Db: hue 210 gives (0, 127, 255)
    assert_eq!(quad(&buf, 1), (0, 127, 255, 255));
    // a key between sampled ones never shows: key 5 lit, no pixel changes
    v.receive_message(&[0x90, 26, 80]);
    let buf2 = v.get_pixels();
    assert_eq!(buf, buf2);
}

#[test]
fn pedal_is_recorded_without_visual_change() {
    let mut v = Visualizer::new(88);
    v.receive_message(&[0x90, 60, 127]);
    let before = v.get_pixels();
    v.receive_message(&[0xB0, 64, 90]);
    assert_eq!(v.pedal_value(), 90);
    assert_eq!(v.intensity(39), 127);
    let after = v.get_pixels();
    assert_eq!(before, after);
}

#[test]
fn pedal_ignores_other_controllers() {
    let mut v = Visualizer::new(88);
    v.receive_message(&[0xB0, 1, 50]);
    assert_eq!(v.pedal_value(), 0);
}

#[test]
fn status_nibble_masks_the_channel() {
    let mut v = Visualizer::new(88);
    v.receive_message(&[0x93, 60, 127]);
    assert_eq!(v.intensity(39), 127);
    let buf = v.get_pixels();
    assert_eq!(quad(&buf, 39), (255, 0, 0, 255));
}

#[test]
fn unrecognized_status_is_ignored() {
    let mut v = Visualizer::new(88);
    v.receive_message(&[0xA0, 60, 127]);
    v.receive_message(&[0xC0, 60, 127]);
    for i in 0..88 {
        assert_eq!(v.intensity(i), 0);
    }
}

#[test]
fn lowest_and_highest_keys_light() {
    let mut v = Visualizer::new(88);
    v.receive_message(&[0x90, 21, 1]);
    v.receive_message(&[0x90, 108, 127]);
    assert_eq!(v.intensity(0), 1);
    assert_eq!(v.intensity(87), 127);
    let buf = v.get_pixels();
    // key 0 is an A: (127, 255, 0); key 87 has pitch class 3, a C: (255, 0, 0)
    assert_eq!(quad(&buf, 0), (127, 255, 0, 255));
    assert_eq!(quad(&buf, 87), (255, 0, 0, 255));
}

#[test]
fn note_on_at_zero_level_stays_dark() {
    let mut v = Visualizer::new(88);
    v.receive_message(&[0x90, 60, 127]);
    // a note-on with data byte 0 overwrites the intensity with zero;
    // it is not remapped to a note-off, but the cell still goes dark
    v.receive_message(&[0x90, 60, 0]);
    assert_eq!(v.intensity(39), 0);
    let buf = v.get_pixels();
    assert_eq!(quad(&buf, 39), DARK);
}

#[test]
fn step_changes_nothing() {
    let mut v = Visualizer::new(88);
    v.receive_message(&[0x90, 60, 127]);
    let before = v.get_pixels();
    v.step();
    assert_eq!(v.intensity(39), 127);
    assert_eq!(v.get_pixels(), before);
}

#[test]
fn palette_matches_the_circle_of_fifths() {
    let expected: [(u8, u8, u8); 12] = [
        (127, 255, 0),   // A, hue 90
        (255, 0, 127),   // Bb, hue 330
        (0, 255, 127),   // B, hue 150
        (255, 0, 0),     // C, hue 0
        (0, 127, 255),   // Db, hue 210
        (255, 255, 0),   // D, hue 60
        (127, 0, 255),   // Eb, hue 270
        (0, 255, 0),     // E, hue 120
        (255, 0, 127),   // F, hue 330
        (0, 255, 255),   // Gb, hue 180
        (255, 127, 0),   // G, hue 30
        (0, 0, 255),     // Ab, hue 240
    ];
    for k in 0..12u8 {
        assert_eq!(Key::from_note_number(k).get_colour(), expected[k as usize]);
    }
    // the palette repeats every twelve keys
    for k in 0..88u8 {
        assert_eq!(
            Key::from_note_number(k).get_colour(),
            expected[(k % 12) as usize]
        );
    }
}

#[test]
fn palette_collision_between_bb_and_f() {
    // pitch classes Bb and F both sit on hue 330: a deliberate collision
    assert_eq!(
        Key::from_note_number(1).get_colour(),
        Key::from_note_number(8).get_colour()
    );
}
