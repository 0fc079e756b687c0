use unified_id::identifier::Identifier;
use unified_id::kinds::IdKind;
use unified_id::masks::IdentifierMask;

#[test]
fn mod_id_construction() {
    let id = Identifier::new(12, 55, IdKind::Entity);

    assert_eq!(id.low(), 12);
    assert_eq!(id.high(), 55);
    assert_eq!(
        IdentifierMask::extract_kind_from_high(id.high()),
        IdKind::Entity
    );
}

#[test]
fn mod_from_bits() {
    // This high value should correspond to the max high() value
    // and also Entity flag.
    let high: u64 = 0x7FFFFFFF;
    let low: u64 = 0xC;
    let bits: u64 = high << u32::BITS | low;

    let id = Identifier::from_bits(bits);

    assert_eq!(id.to_bits(), 0x7FFFFFFF0000000C);
    assert_eq!(id.low(), low as u32);
    assert_eq!(id.high(), 0x7FFFFFFF);
    assert_eq!(
        IdentifierMask::extract_kind_from_high(id.high()),
        IdKind::Entity
    );
}

fn sample_words() -> Vec<u64> {
    vec![
        0,
        1,
        0x0000_0037_0000_000C,
        0x7FFF_FFFF_0000_000C,
        0x8000_0000_0000_0000,
        0x8000_0037_0000_000C,
        0x0123_4567_89AB_CDEF,
        0xFFFF_FFFF_0000_0000,
        0x0000_0000_FFFF_FFFF,
        u64::MAX,
    ]
}

#[test]
fn new_packs_low_value_and_kind() {
    assert_eq!(
        Identifier::new(12, 55, IdKind::Entity).to_bits(),
        0x0000_0037_0000_000C
    );
    assert_eq!(
        Identifier::new(12, 55, IdKind::Placeholder).to_bits(),
        0x8000_0037_0000_000C
    );
    assert_eq!(Identifier::new(0, 0, IdKind::Entity).to_bits(), 0);
    assert_eq!(
        Identifier::new(0xFFFF_FFFF, 0x7FFF_FFFF, IdKind::Placeholder).to_bits(),
        u64::MAX
    );
}

#[test]
fn new_placeholder_sets_the_kind_flag() {
    let id = Identifier::new(12, 55, IdKind::Placeholder);

    assert_eq!(id.low(), 12);
    assert_eq!(id.high(), 0x8000_0037);
    assert_eq!(IdentifierMask::extract_value_from_high(id.high()), 55);
    assert_eq!(
        IdentifierMask::extract_kind_from_high(id.high()),
        IdKind::Placeholder
    );
}

#[test]
fn new_drops_the_top_bit_of_high() {
    let id = Identifier::new(7, 0xFFFF_FFFF, IdKind::Entity);

    assert_eq!(id.low(), 7);
    assert_eq!(id.high(), 0x7FFF_FFFF);
    assert_eq!(
        IdentifierMask::extract_kind_from_high(id.high()),
        IdKind::Entity
    );
    assert_eq!(id, Identifier::new(7, 0x7FFF_FFFF, IdKind::Entity));

    let id = Identifier::new(7, 0x8000_0001, IdKind::Placeholder);

    assert_eq!(id.high(), 0x8000_0001);
    assert_eq!(id, Identifier::new(7, 1, IdKind::Placeholder));
}

#[test]
fn bits_round_trip() {
    for word in sample_words() {
        let id = Identifier::from_bits(word);
        assert_eq!(id.to_bits(), word);
        assert_eq!(Identifier::from_bits(id.to_bits()), id);
        assert_eq!(id.low() as u64, word & 0xFFFF_FFFF);
        assert_eq!(id.high() as u64, word >> 32);
    }
}

#[test]
fn from_bits_takes_the_flag_as_it_is() {
    let id = Identifier::from_bits(0xFFFF_FFFF_0000_000C);

    assert_eq!(id.high(), 0xFFFF_FFFF);
    assert_eq!(
        IdentifierMask::extract_kind_from_high(id.high()),
        IdKind::Placeholder
    );
    assert_eq!(
        IdentifierMask::extract_value_from_high(id.high()),
        0x7FFF_FFFF
    );
}

#[test]
fn new_round_trips_through_bits() {
    for kind in [IdKind::Entity, IdKind::Placeholder] {
        let id = Identifier::new(0x89AB_CDEF, 0x0123_4567, kind);
        assert_eq!(Identifier::from_bits(id.to_bits()), id);
    }
}

#[test]
fn equality_is_that_of_the_words() {
    for a in sample_words() {
        for b in sample_words() {
            assert_eq!(Identifier::from_bits(a) == Identifier::from_bits(b), a == b);
        }
    }
}

#[test]
fn order_is_that_of_the_words() {
    for a in sample_words() {
        for b in sample_words() {
            let x = Identifier::from_bits(a);
            let y = Identifier::from_bits(b);
            assert_eq!(x < y, a < b);
            assert_eq!(x <= y, a <= b);
            assert_eq!(x > y, a > b);
            assert_eq!(x >= y, a >= b);
            assert_eq!(x.partial_cmp(&y), a.partial_cmp(&b));
            assert_eq!(x.cmp(&y), a.cmp(&b));
        }
    }
}

#[test]
fn high_segment_orders_before_low_segment() {
    let small_high = Identifier::new(0xFFFF_FFFF, 1, IdKind::Entity);
    let large_high = Identifier::new(0, 2, IdKind::Entity);
    let placeholder = Identifier::new(0, 0, IdKind::Placeholder);

    assert!(small_high < large_high);
    assert!(large_high < placeholder);
}
