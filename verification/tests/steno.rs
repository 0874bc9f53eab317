use rmk::steno::{steno_bit_mask, StenoChord};
use rmk_types::steno::StenoKey;
fn report_bytes(s: &StenoChord) -> [u8; 8] {
    s.current_report()
}

fn bitmap(s: &StenoChord) -> u64 {
    u64::from_be_bytes(report_bytes(s))
}

fn msb_bit(key: StenoKey) -> u64 {
    steno_bit_mask(key.0).expect("test key must be in range")
}

#[test]
fn press_sends_live_state() {
    let mut s = StenoChord::new();
    s.update(StenoKey::S1.0, true);
    assert_eq!(bitmap(&s), msb_bit(StenoKey::S1));

    s.update(StenoKey::T.0, true);
    assert_eq!(bitmap(&s), msb_bit(StenoKey::S1) | msb_bit(StenoKey::T));
}

#[test]
fn release_clears_bit() {
    let mut s = StenoChord::new();
    s.update(StenoKey::S1.0, true);
    s.update(StenoKey::T.0, true);

    s.update(StenoKey::T.0, false);
    assert_eq!(bitmap(&s), msb_bit(StenoKey::S1), "T bit should be cleared");

    s.update(StenoKey::S1.0, false);
    assert_eq!(bitmap(&s), 0, "all bits should be cleared");
}

#[test]
fn real_edges_signal_change() {
    let mut s = StenoChord::new();
    assert!(s.update(StenoKey::S1.0, true));
    assert!(s.update(StenoKey::T.0, true));
    assert!(s.update(StenoKey::T.0, false));
    assert!(s.update(StenoKey::S1.0, false));
}

#[test]
fn no_op_edges_skip_dispatch() {
    let mut s = StenoChord::new();
    assert!(s.update(StenoKey::S1.0, true));
    assert!(!s.update(StenoKey::S1.0, true), "re-press of held key is a no-op");
    assert!(s.update(StenoKey::S1.0, false));
    assert!(!s.update(StenoKey::S1.0, false), "re-release of cleared key is a no-op");
    assert!(!s.update(StenoKey::T.0, false), "release of never-pressed key is a no-op");
}

#[test]
fn s1_is_msb_of_first_byte() {
    let mut s = StenoChord::new();
    s.update(StenoKey::S1.0, true);
    let bytes = report_bytes(&s);
    assert_eq!(bytes[0], 0x80);
    assert_eq!(&bytes[1..], &[0; 7]);
}

#[test]
fn x26_is_lsb_of_last_byte() {
    let mut s = StenoChord::new();
    s.update(StenoKey::X26.0, true);
    let bytes = report_bytes(&s);
    assert_eq!(&bytes[..7], &[0; 7]);
    assert_eq!(bytes[7], 0x01);
}

#[test]
fn out_of_range_index_is_skipped() {
    let mut s = StenoChord::new();
    assert!(!s.update(StenoKey(64).0, true));
}

#[test]
fn repeated_chord_produces_zero_between() {
    let mut s = StenoChord::new();
    for _ in 0..3 {
        s.update(StenoKey::S1.0, true);
        s.update(StenoKey::T.0, true);
        s.update(StenoKey::T.0, false);
        s.update(StenoKey::S1.0, false);
        assert_eq!(bitmap(&s), 0, "all-up must produce zero bitmap");
    }
}

/// Press all keys, release all keys, return the peak bitmap held during
/// the stroke (when all keys were pressed).
fn stroke(s: &mut StenoChord, keys: &[StenoKey]) -> u64 {
    let mut peak = 0u64;
    for &k in keys {
        s.update(k.0, true);
        peak = bitmap(s);
    }
    for &k in keys {
        s.update(k.0, false);
    }
    peak
}

/// "hello world" in Plover's default dictionary is three strokes:
///   HEL  (H + E + -L)
///   HRO  (H + R + O)
///   WORLD (W + O + -R + -L + -D)
#[test]
fn hello_world_strokes() {
    let mut s = StenoChord::new();

    let hel = stroke(&mut s, &[StenoKey::H, StenoKey::RE, StenoKey::RL]);
    assert_eq!(
        hel,
        msb_bit(StenoKey::H) | msb_bit(StenoKey::RE) | msb_bit(StenoKey::RL)
    );

    let hro = stroke(&mut s, &[StenoKey::H, StenoKey::R, StenoKey::O]);
    assert_eq!(hro, msb_bit(StenoKey::H) | msb_bit(StenoKey::R) | msb_bit(StenoKey::O));

    let world = stroke(
        &mut s,
        &[StenoKey::W, StenoKey::O, StenoKey::RR, StenoKey::RL, StenoKey::RD],
    );
    assert_eq!(
        world,
        msb_bit(StenoKey::W)
            | msb_bit(StenoKey::O)
            | msb_bit(StenoKey::RR)
            | msb_bit(StenoKey::RL)
            | msb_bit(StenoKey::RD)
    );
}

#[test]
fn steno_bit_mask_positions() {
    assert_eq!(steno_bit_mask(0), Some(1u64 << 63));
    assert_eq!(steno_bit_mask(63), Some(1));
    assert_eq!(steno_bit_mask(64), None);
    assert_eq!(steno_bit_mask(255), None);
}
