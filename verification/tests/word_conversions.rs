use evm_jit_context::word::EvmWord;

fn ascending() -> Vec<u8> {
    (0u8..32).collect()
}

#[test]
fn ne_round_trip() {
    let b = ascending();
    let w = EvmWord::from_ne_bytes(b.clone());
    assert_eq!(w.to_ne_bytes(), b);
}

#[test]
fn be_round_trip() {
    let b = ascending();
    let w = EvmWord::from_ne_bytes(b.clone());
    let be = w.to_be_bytes();
    let back = EvmWord::from_be_bytes(be);
    assert_eq!(back.to_ne_bytes(), b);
}

#[test]
fn le_round_trip() {
    let b = ascending();
    let w = EvmWord::from_ne_bytes(b.clone());
    let le = w.to_le_bytes();
    let back = EvmWord::from_le_bytes(le);
    assert_eq!(back.to_ne_bytes(), b);
}

#[test]
fn swap_bytes_reverses() {
    let b = ascending();
    let w = EvmWord::from_ne_bytes(b.clone());
    let swapped: Vec<u8> = b.iter().rev().copied().collect();
    assert_eq!(w.swap_bytes().to_ne_bytes(), swapped);
    assert_eq!(w.swap_bytes().swap_bytes().to_ne_bytes(), b);
}

#[test]
fn be_is_swapped_ne() {
    let b = ascending();
    let w = EvmWord::from_ne_bytes(b.clone());
    let swapped: Vec<u8> = b.iter().rev().copied().collect();
    assert_eq!(w.to_be_bytes(), swapped);
    assert_eq!(w.to_be().to_ne_bytes(), swapped);
    assert_eq!(EvmWord::from_be(w).to_ne_bytes(), swapped);
}

#[test]
fn le_is_identity() {
    let b = ascending();
    let w = EvmWord::from_ne_bytes(b.clone());
    assert_eq!(w.to_le_bytes(), b);
    assert_eq!(w.to_le().to_ne_bytes(), b);
    let w2 = EvmWord::from_ne_bytes(b.clone());
    assert_eq!(EvmWord::from_le(w2).to_ne_bytes(), b);
}

#[test]
fn u64_round_trip() {
    for v in [0u64, 1, 255, 256, 0xdead_beef, u64::MAX] {
        assert_eq!(EvmWord::from_u64(v).try_to_u64(), Some(v));
    }
}

#[test]
fn u64_exact_be_bytes() {
    let w = EvmWord::from_u64(0x0102030405060708);
    let mut expected = vec![0u8; 24];
    expected.extend_from_slice(&[1, 2, 3, 4, 5, 6, 7, 8]);
    assert_eq!(w.to_be_bytes(), expected);
}

#[test]
fn u64_overflow_fails() {
    assert_eq!(EvmWord::from_u128(1u128 << 64).try_to_u64(), None);
    assert_eq!(
        EvmWord::from_u128((1u128 << 64) - 1).try_to_u64(),
        Some(u64::MAX)
    );
}

#[test]
fn u32_round_trip_and_overflow() {
    for v in [0u32, 7, u32::MAX] {
        assert_eq!(EvmWord::from_u32(v).try_to_u32(), Some(v));
    }
    assert_eq!(EvmWord::from_u64(1u64 << 32).try_to_u32(), None);
}

#[test]
fn u16_round_trip_and_overflow() {
    for v in [0u16, 300, u16::MAX] {
        assert_eq!(EvmWord::from_u16(v).try_to_u16(), Some(v));
    }
    assert_eq!(EvmWord::from_u32(1u32 << 16).try_to_u16(), None);
}

#[test]
fn u8_round_trip_and_overflow() {
    for v in [0u8, 1, u8::MAX] {
        assert_eq!(EvmWord::from_u8(v).try_to_u8(), Some(v));
    }
    assert_eq!(EvmWord::from_u16(256).try_to_u8(), None);
}

#[test]
fn u128_round_trip_and_overflow() {
    for v in [0u128, 1, u128::MAX] {
        assert_eq!(EvmWord::from_u128(v).try_to_u128(), Some(v));
    }
    // The 256-bit value 2^128: big-endian byte 15 set, everything else zero.
    let mut be = vec![0u8; 32];
    be[15] = 1;
    let w = EvmWord::from_be_bytes(be);
    assert_eq!(w.try_to_u128(), None);
}

#[test]
fn usize_conversion() {
    assert_eq!(EvmWord::from_usize(4096).try_to_u64(), Some(4096));
    assert_eq!(EvmWord::from_usize(usize::MAX).try_to_usize(), Some(usize::MAX));
    assert_eq!(EvmWord::from_u128(u128::MAX).try_to_usize(), None);
}

#[test]
fn bool_round_trip_and_overflow() {
    assert_eq!(EvmWord::from_bool(true).try_to_bool(), Some(true));
    assert_eq!(EvmWord::from_bool(false).try_to_bool(), Some(false));
    assert_eq!(EvmWord::from_u8(2).try_to_bool(), None);
    assert_eq!(EvmWord::from_u8(1).try_to_bool(), Some(true));
}

#[test]
fn word_equality_is_byte_equality() {
    assert_eq!(EvmWord::from_u64(5), EvmWord::from_u64(5));
    assert_ne!(EvmWord::from_u64(5), EvmWord::from_u64(6));
    let b = ascending();
    assert_eq!(
        EvmWord::from_ne_bytes(b.clone()),
        EvmWord::from_ne_bytes(b).clone()
    );
}

#[test]
fn zero_word_is_zero() {
    let w = EvmWord::zero();
    assert_eq!(w.to_ne_bytes(), vec![0u8; 32]);
    assert_eq!(w.try_to_u64(), Some(0));
}

#[test]
fn address_is_trailing_twenty_be_bytes() {
    let pattern: Vec<u8> = (100u8..120).collect();
    let mut be = vec![0xaau8; 12];
    be.extend_from_slice(&pattern);
    let w = EvmWord::from_be_bytes(be);
    assert_eq!(w.to_address().to_bytes(), pattern);

    // The leading 12 bytes are discarded whatever they hold.
    let mut be2 = vec![0x55u8; 12];
    be2.extend_from_slice(&pattern);
    let w2 = EvmWord::from_be_bytes(be2);
    assert_eq!(w2.to_address().to_bytes(), pattern);
}
