use lc3_vm::util::sign_extend;

#[test]
fn it_sign_extends() {
    assert_eq!(sign_extend(0b111111, 5), 0xFFFF);
    assert_eq!(sign_extend(0b11110, 5), 0xFFFE);
    assert_eq!(sign_extend(0b1110, 4), 0xFFFE);

    assert_eq!(sign_extend(0b1110, 4) as i16, -2);
    assert_eq!(sign_extend(1, 8) as i16, 1);
    assert_eq!(sign_extend(1, 9) as i16, 1);
}

#[test]
fn sign_extension_of_five_bit_fields() {
    assert_eq!(sign_extend(0b11111, 5), 0xFFFF);
    assert_eq!(sign_extend(0b01111, 5), 0b01111);
    assert_eq!(sign_extend(0b10000, 5), 0xFFF0);
    assert_eq!(sign_extend(0, 5), 0);
}

#[test]
fn sign_extension_at_the_widths_of_the_offsets() {
    assert_eq!(sign_extend(0x3F, 6), 0xFFFF);
    assert_eq!(sign_extend(0x20, 6), 0xFFE0);
    assert_eq!(sign_extend(0x1F, 6), 0x001F);
    assert_eq!(sign_extend(0x1FF, 9), 0xFFFF);
    assert_eq!(sign_extend(0x100, 9), 0xFF00);
    assert_eq!(sign_extend(0x0FF, 9), 0x00FF);
    assert_eq!(sign_extend(0x7FF, 11), 0xFFFF);
    assert_eq!(sign_extend(0x400, 11), 0xFC00);
    assert_eq!(sign_extend(0x3FF, 11), 0x03FF);
}

#[test]
fn sign_extension_at_the_narrowest_and_widest_field() {
    assert_eq!(sign_extend(1, 1), 0xFFFF);
    assert_eq!(sign_extend(0, 1), 0);
    assert_eq!(sign_extend(0x8000, 16), 0x8000);
    assert_eq!(sign_extend(0x7FFF, 16), 0x7FFF);
    assert_eq!(sign_extend(0xFFFF, 16), 0xFFFF);
    assert_eq!(sign_extend(0x4000, 15), 0xC000);
}

#[test]
fn sign_extension_fills_every_bit_above_a_set_sign_bit() {
    for width in 1..=16usize {
        for field in [0u16, 1, 0x5555, 0xAAAA, 0x7FFF, 0x8000, 0xFFFF] {
            let extended = sign_extend(field, width);
            let sign = (field >> (width - 1)) & 1 == 1;
            for bit in 0..16usize {
                let expected = if bit >= width && sign {
                    1
                } else {
                    (field >> bit) & 1
                };
                assert_eq!((extended >> bit) & 1, expected);
            }
            if !sign {
                assert_eq!(extended, field);
            }
        }
    }
}

#[test]
fn sign_extension_keeps_the_number() {
    for width in 1..=15u32 {
        for field in 0..(1u32 << width) {
            let expected = if field >= (1 << (width - 1)) {
                field as i32 - (1 << width)
            } else {
                field as i32
            };
            let extended = sign_extend(field as u16, width as usize);
            assert_eq!(extended as i16 as i32, expected);
        }
    }
}
