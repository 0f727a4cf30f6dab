use lc3::bits::extend;
use lc3::flags::{flag_of, Flag};

#[test]
fn extend_negative_five_bit() {
    assert_eq!(extend(0x1F, 5), 0xFFFF);
}

#[test]
fn extend_positive_five_bit() {
    assert_eq!(extend(0x0F, 5), 0x000F);
}

#[test]
fn extend_nine_bit_offsets() {
    assert_eq!(extend(0x100, 9), 0xFF00);
    assert_eq!(extend(0x0FF, 9), 0x00FF);
    assert_eq!(extend(0x1FF, 9), 0xFFFF);
}

#[test]
fn extend_full_width_is_identity() {
    assert_eq!(extend(0x8000, 16), 0x8000);
    assert_eq!(extend(0x1234, 16), 0x1234);
}

#[test]
fn extend_keeps_low_bits_for_every_width() {
    let values: [u16; 5] = [0x0000, 0x1234, 0xFFFF, 0x8001, 0x5A5A];
    for w in 1u8..=16 {
        let mask: u16 = if w == 16 { 0xFFFF } else { (1u16 << w) - 1 };
        for &v in values.iter() {
            let x = v & mask;
            let r = extend(x, w);
            assert_eq!(r & mask, x);
            let sign = (x >> (w - 1)) & 1 == 1;
            assert_eq!(r & !mask, if sign { !mask } else { 0 });
        }
    }
}

#[test]
fn flags_from_values() {
    assert_eq!(flag_of(0), Flag::Zero);
    assert_eq!(flag_of(0x8000), Flag::Negative);
    assert_eq!(flag_of(0xFFFF), Flag::Negative);
    assert_eq!(flag_of(1), Flag::Positive);
    assert_eq!(flag_of(0x7FFF), Flag::Positive);
    assert_eq!(Flag::Positive.bits(), 1);
    assert_eq!(Flag::Zero.bits(), 2);
    assert_eq!(Flag::Negative.bits(), 4);
}

#[test]
fn flags_are_exclusive_over_all_values() {
    for v in 0u32..=0xFFFF {
        let v = v as u16;
        let bits = flag_of(v).bits();
        assert!(bits == 1 || bits == 2 || bits == 4);
        assert_eq!(bits == 2, v == 0);
        assert_eq!(bits == 4, v != 0 && v >> 15 == 1);
    }
}
