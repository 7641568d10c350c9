use rustretro::{expand_return_pointer, pack_return_pointer};

#[test]
fn pack_then_expand_recovers_zero() {
    assert_eq!(pack_return_pointer(0, 0), 0);
    assert_eq!(expand_return_pointer(0), (0, 0));
}

#[test]
fn pack_then_expand_recovers_max() {
    let packed = pack_return_pointer(u32::MAX, u32::MAX);
    assert_eq!(packed, u64::MAX);
    assert_eq!(expand_return_pointer(packed), (u32::MAX, u32::MAX));
}

#[test]
fn pointer_is_low_half_and_length_is_high_half() {
    assert_eq!(pack_return_pointer(0x1234_5678, 0x0000_0010), 0x0000_0010_1234_5678);
    assert_eq!(expand_return_pointer(0x0003_C000_0001_0000), (0x0001_0000, 0x0003_C000));
}

#[test]
fn every_pair_survives_the_round_trip() {
    let samples = [
        0u32,
        1,
        2,
        0x7F,
        0x80,
        0xFF,
        0x100,
        0xFFFF,
        0x1_0000,
        0x3_C000,
        0x7FFF_FFFF,
        0x8000_0000,
        0x8000_0001,
        0xDEAD_BEEF,
        u32::MAX - 1,
        u32::MAX,
    ];
    for ptr in samples {
        for length in samples {
            let packed = pack_return_pointer(ptr, length);
            assert_eq!(packed, (ptr as u64) | ((length as u64) << 32));
            assert_eq!(expand_return_pointer(packed), (ptr, length));
        }
    }
}

#[test]
fn every_word_is_the_packing_of_its_halves() {
    for word in [0u64, 1, 0xFFFF_FFFF, 0x1_0000_0000, 0x1234_5678_9ABC_DEF0, u64::MAX - 1, u64::MAX] {
        let (ptr, length) = expand_return_pointer(word);
        assert_eq!(ptr as u64, word & 0xFFFF_FFFF);
        assert_eq!(length as u64, word >> 32);
        assert_eq!(pack_return_pointer(ptr, length), word);
    }
}
