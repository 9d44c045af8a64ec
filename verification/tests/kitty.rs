use kitties::{combine_dna, Kitty, KittyGender};

#[test]
fn gender_follows_first_byte_parity() {
    let mut dna: [u8; 16] = [0u8; 16];
    assert_eq!(Kitty(dna).gender(), KittyGender::F);
    dna[0] = 1;
    assert_eq!(Kitty(dna).gender(), KittyGender::M);
    dna[0] = 2;
    assert_eq!(Kitty(dna).gender(), KittyGender::F);
    dna[0] = 255;
    assert_eq!(Kitty(dna).gender(), KittyGender::M);
}

#[test]
fn gender_ignores_later_bytes() {
    let mut dna: [u8; 16] = [0xffu8; 16];
    dna[0] = 4;
    assert_eq!(Kitty(dna).gender(), KittyGender::F);
}

#[test]
fn combine_dna_exact_values() {
    assert_eq!(combine_dna(0xab, 0xcd, 0x0f), 0xad);
    assert_eq!(combine_dna(0b1111_1111, 0b0000_0000, 10), 0b1111_0101);
    assert_eq!(combine_dna(0b0000_0000, 0b1111_1111, 10), 0b0000_1010);
    assert_eq!(combine_dna(0x5a, 0x5a, 0x33), 0x5a);
}

#[test]
fn combine_dna_zero_selector_returns_first_parent() {
    let pairs: [(u8, u8); 4] = [(0, 0), (0xff, 0), (0x12, 0x34), (0x80, 0x7f)];
    for (p1, p2) in pairs {
        assert_eq!(combine_dna(p1, p2, 0), p1);
    }
}

#[test]
fn combine_dna_full_selector_returns_second_parent() {
    let pairs: [(u8, u8); 4] = [(0, 0), (0xff, 0), (0x12, 0x34), (0x80, 0x7f)];
    for (p1, p2) in pairs {
        assert_eq!(combine_dna(p1, p2, 0xff), p2);
    }
}

#[test]
fn combine_dna_is_deterministic() {
    assert_eq!(combine_dna(0x9c, 0x63, 0x55), combine_dna(0x9c, 0x63, 0x55));
}
