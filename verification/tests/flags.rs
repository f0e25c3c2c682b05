use intel8080::conditions::{ConditionName, Conditions};

#[test]
fn pack_layout() {
    let mut f = Conditions::new();
    assert_eq!(f.as_bits(), 0b0000_0010);
    f.set(ConditionName::Carry, true);
    assert_eq!(f.as_bits(), 0b0000_0011);
    f.set(ConditionName::Parity, true);
    assert_eq!(f.as_bits(), 0b0000_0111);
    f.set(ConditionName::Auxillary, true);
    assert_eq!(f.as_bits(), 0b0001_0111);
    f.set(ConditionName::Zero, true);
    assert_eq!(f.as_bits(), 0b0101_0111);
    f.set(ConditionName::Sign, true);
    assert_eq!(f.as_bits(), 0b1101_0111);
}

#[test]
fn unpack_reads_five_bits_only() {
    let mut f = Conditions::new();
    f.restore_from_bits(0b0010_1010);
    assert_eq!(f, Conditions::new());
    f.restore_from_bits(0b1111_1111);
    assert_eq!(
        f,
        Conditions { carry: true, aux: true, sign: true, zero: true, parity: true }
    );
    f.restore_from_bits(0b0001_0001);
    assert_eq!(
        f,
        Conditions { carry: true, aux: true, sign: false, zero: false, parity: false }
    );
}

#[test]
fn unpack_of_pack_gives_the_bits_back() {
    for n in 0..32u8 {
        let f = Conditions {
            carry: n & 1 != 0,
            aux: n & 2 != 0,
            sign: n & 4 != 0,
            zero: n & 8 != 0,
            parity: n & 16 != 0,
        };
        let mut g = Conditions::new();
        g.restore_from_bits(f.as_bits());
        assert_eq!(g, f);
    }
}

#[test]
fn pack_of_unpack_gives_the_condition_bits_back() {
    for b in 0..=255u8 {
        let mut f = Conditions::new();
        f.restore_from_bits(b);
        let packed = f.as_bits();
        assert_eq!(packed & 0xD5, b & 0xD5);
        assert_eq!(packed & 0x2A, 0x02);
        if b & 0x02 == 0x02 {
            assert_eq!(packed & 0xD7, b & 0xD7);
        }
    }
}

#[test]
fn pack_forces_bit_one() {
    let mut f = Conditions::new();
    f.restore_from_bits(0x00);
    assert_eq!(f.as_bits(), 0x02);
    assert_ne!(f.as_bits() & 0xD7, 0x00 & 0xD7);
}

#[test]
fn get_reads_what_set_wrote() {
    let names = [
        ConditionName::Carry,
        ConditionName::Auxillary,
        ConditionName::Sign,
        ConditionName::Zero,
        ConditionName::Parity,
    ];
    for (i, name) in names.iter().enumerate() {
        let mut f = Conditions::new();
        f.set(*name, true);
        for (j, other) in names.iter().enumerate() {
            assert_eq!(f.get(*other), i == j);
        }
    }
}
