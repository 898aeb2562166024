use auxiliary::frames::{
    byte_to_i8, i16_from_le_bytes, raw_data_read_frame, read_register_frame, write_register_frame,
};
use auxiliary::{calculate_timer_values, NvicGuard, Tim2Guard};

#[test]
fn read_frame_sets_bit_7() {
    assert_eq!(read_register_frame(0x0F), vec![0x8F, 0x00]);
    assert_eq!(read_register_frame(0x8F), vec![0x8F, 0x00]);
}

#[test]
fn write_frame_clears_bit_7() {
    assert_eq!(write_register_frame(0x20, 0xBF), vec![0x20, 0xBF]);
    assert_eq!(write_register_frame(0xA0, 0x01), vec![0x20, 0x01]);
}

#[test]
fn raw_data_frame_is_auto_increment_read_of_out_x_l() {
    assert_eq!(raw_data_read_frame(), vec![0xE8, 0, 0, 0, 0, 0, 0]);
}

#[test]
fn le_bytes_match_std() {
    for (lo, hi) in [(0x45u8, 0xAFu8), (0x10, 0x00), (0xFF, 0xFF), (0x00, 0x80), (0xFF, 0x7F)] {
        assert_eq!(i16_from_le_bytes(lo, hi), i16::from_le_bytes([lo, hi]));
    }
    assert_eq!(i16_from_le_bytes(0x10, 0x00), 16);
}

#[test]
fn byte_to_i8_matches_cast() {
    for b in 0..=255u8 {
        assert_eq!(byte_to_i8(b), b as i8);
    }
}

#[test]
fn timer_values_for_400_hz() {
    assert_eq!(calculate_timer_values(72_000_000, 100_000, 400), (719, 249));
    let (psc, arr) = calculate_timer_values(72_000_000, 100_000, 400);
    assert_eq!((psc as u32 + 1) * (arr + 1) * 400, 72_000_000);
}

#[test]
fn timer_values_truncate_the_prescaler_to_16_bits() {
    assert_eq!(calculate_timer_values(72_000_000, 1, 1), ((72_000_000u32 - 1) as u16, 0));
}

#[test]
fn tim2_guard_initialises_once() {
    let mut g = Tim2Guard::new();
    assert_eq!(g.init(), Some(()));
    assert_eq!(g.init(), None);
    assert_eq!(g.init(), None);
}

#[test]
fn nvic_guard_unmasks_once() {
    let mut g = NvicGuard::new();
    assert_eq!(g.unmask_tim2_safe(), Ok(()));
    assert_eq!(g.unmask_tim2_safe(), Err("Already initialized"));
}
