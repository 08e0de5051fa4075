use clerk::{Address, CgRam, DdRam};

#[test]
fn from_with_overflow() {
    let a: Address<DdRam> = Address::from(128);
    assert_eq!(a, Address::from(0));

    let a: Address<DdRam> = Address::from(127 + 3);
    assert_eq!(a, Address::from(2));
}

#[test]
fn add_without_overflow() {
    let a: Address<DdRam> = Address::from(5);
    let b = Address::from(10);

    assert_eq!(a + b, Address::from(15));
}

#[test]
fn add_with_overflow() {
    let a: Address<DdRam> = Address::from(120);
    let b = Address::from(10);

    assert_eq!(a + b, Address::from(2));
}

#[test]
fn sub_without_overflow() {
    let a: Address<DdRam> = Address::from(20);
    let b = Address::from(10);

    assert_eq!(a - b, Address::from(10));
}

#[test]
fn sub_with_overflow() {
    let a: Address<DdRam> = Address::from(10);
    let b = Address::from(20);

    assert_eq!(a - b, Address::from(118));
}

#[test]
fn add_assign_without_overflow() {
    let mut a: Address<DdRam> = Address::from(10);
    let b = Address::from(20);

    a += b;

    assert_eq!(a, Address::from(30));
}

#[test]
fn add_assign_with_overflow() {
    let mut a: Address<DdRam> = Address::from(120);
    let b = Address::from(8);

    a += b;

    assert_eq!(a, Address::from(0));
}

#[test]
fn sub_assign_without_overflow() {
    let mut a: Address<DdRam> = Address::from(123);
    let b = Address::from(23);

    a -= b;

    assert_eq!(a, Address::from(100));
}

#[test]
fn sub_assign_with_overflow() {
    let mut a: Address<DdRam> = Address::from(5);
    let b = Address::from(7);

    a -= b;

    assert_eq!(a, Address::from(126));
}

#[test]
fn to_raw_gives_normalized_value() {
    let a: Address<DdRam> = Address::from(200);
    assert_eq!(a.to_raw(), 72);
    assert_eq!(u8::from(a), 72);

    let c: Address<CgRam> = Address::from(200);
    assert_eq!(c.to_raw(), 8);
}

#[test]
fn wraparound_matches_modular_arithmetic() {
    for a in 0..128u8 {
        for b in 0..128u8 {
            let x: Address<DdRam> = Address::from_raw(a);
            let y: Address<DdRam> = Address::from_raw(b);
            let sum = ((a as u16 + b as u16) % 128) as u8;
            let diff = ((a as i16 - b as i16 + 128) % 128) as u8;
            assert_eq!(x.wrapping_add(y).to_raw(), sum);
            assert_eq!(x.wrapping_sub(y).to_raw(), diff);
        }
    }
}

#[test]
fn cgram_addresses_wrap_at_sixty_four() {
    let a: Address<CgRam> = Address::from(60);
    let b: Address<CgRam> = Address::from(10);
    assert_eq!((a + b).to_raw(), 6);
    assert_eq!((b - a).to_raw(), 14);
}

#[test]
fn default_address_is_zero() {
    let a: Address<DdRam> = Address::default();
    assert_eq!(a.to_raw(), 0);
}

#[test]
fn line_addresses() {
    let one: Address<DdRam> = Address::from(clerk::DefaultLines::One);
    let two: Address<DdRam> = Address::from(clerk::DefaultLines::Two);
    assert_eq!(one.to_raw(), 0x00);
    assert_eq!(two.to_raw(), 0x40);
}
