use unified_id::activation::{
    IdKind, Identifier, DEACTIVATED_FLAG, HIGH_MASK, LOW_MASK, PAIR_FLAG,
};

#[test]
fn identifier_id_construction() {
    let id = Identifier::new(12, 55, IdKind::Entity);

    assert_eq!(id.low(), 12);
    assert_eq!(id.high(), 55);
    assert_eq!(id.kind(), IdKind::Entity);
    // All IDs are active by default
    assert!(id.is_active());
}

#[test]
fn identifier_from_bits() {
    // This high value should correspond to the max high() value
    // and also Entity + Deactivated flags.
    let high: u64 = 0x7FFFFFFF;
    let low: u64 = 12;
    let bits: u64 = high << u32::BITS | low;

    let id = Identifier::from_bits(bits);

    assert_eq!(id.to_bits(), 0x7FFFFFFF0000000C);
    assert_eq!(id.low(), low as u32);
    // MAX value will always return with the 2 MSB masked, so
    // equivalent to 0x3FFFFFFF, or u32::MAX >> 2
    assert_eq!(id.high(), 0x3FFFFFFF);
    assert_eq!(id.kind(), IdKind::Entity);
    assert!(!id.is_active());
}

#[test]
fn id_deactivation() {
    let id = Identifier::new(12, 55, IdKind::Entity);

    let deactivated_id = id.deactivate();

    assert!(!deactivated_id.is_active());
    // The IDs should no longer match as their underlying bits are different
    assert_ne!(deactivated_id, id);

    let reactivated_id = deactivated_id.activate();

    assert!(reactivated_id.is_active());
    // The IDs should match again
    assert_eq!(reactivated_id, id);
}

fn sample_flagged_words() -> Vec<u64> {
    vec![
        0,
        1,
        0x0000_0037_0000_000C,
        0x3FFF_FFFF_FFFF_FFFF,
        0x4000_0000_0000_0000,
        0x4000_0037_0000_000C,
        0x7FFF_FFFF_0000_000C,
        0x8000_0000_0000_0000,
        0x8000_0037_0000_000C,
        0xC000_0000_0000_0000,
        0xC123_4567_89AB_CDEF,
        u64::MAX,
    ]
}

#[test]
fn flag_constants_partition_the_word() {
    assert_eq!(LOW_MASK | HIGH_MASK | DEACTIVATED_FLAG | PAIR_FLAG, u64::MAX);
    assert_eq!(LOW_MASK & HIGH_MASK, 0);
    assert_eq!(DEACTIVATED_FLAG, 1 << 62);
    assert_eq!(PAIR_FLAG, 1 << 63);
}

#[test]
fn new_packs_the_parts_into_the_word() {
    assert_eq!(
        Identifier::new(12, 55, IdKind::Entity).to_bits(),
        0x0000_0037_0000_000C
    );
    assert_eq!(
        Identifier::new(12, 55, IdKind::Pair).to_bits(),
        0x8000_0037_0000_000C
    );
    assert_eq!(Identifier::new(0, 0, IdKind::Entity).to_bits(), 0);
    assert_eq!(
        Identifier::new(0xFFFF_FFFF, 0x3FFF_FFFF, IdKind::Pair).to_bits(),
        0xBFFF_FFFF_FFFF_FFFF
    );
}

#[test]
fn new_pair_is_an_active_pair() {
    let id = Identifier::new(12, 55, IdKind::Pair);

    assert_eq!(id.low(), 12);
    assert_eq!(id.high(), 55);
    assert_eq!(id.kind(), IdKind::Pair);
    assert!(id.is_active());
}

#[test]
fn new_drops_the_two_top_bits_of_high() {
    let id = Identifier::new(7, 0xFFFF_FFFF, IdKind::Entity);

    assert_eq!(id.to_bits(), 0x3FFF_FFFF_0000_0007);
    assert_eq!(id.low(), 7);
    assert_eq!(id.high(), 0x3FFF_FFFF);
    assert_eq!(id.kind(), IdKind::Entity);
    assert!(id.is_active());

    let id = Identifier::new(7, 0xC000_0001, IdKind::Pair);

    assert_eq!(id, Identifier::new(7, 1, IdKind::Pair));
    assert!(id.is_active());
}

#[test]
fn flagged_bits_round_trip() {
    for word in sample_flagged_words() {
        let id = Identifier::from_bits(word);
        assert_eq!(id.to_bits(), word);
        assert_eq!(Identifier::from_bits(id.to_bits()), id);
    }
}

#[test]
fn accessors_read_their_own_bits() {
    for word in sample_flagged_words() {
        let id = Identifier::from_bits(word);
        assert_eq!(id.low() as u64, word & 0xFFFF_FFFF);
        assert_eq!(id.high() as u64, (word >> 32) & 0x3FFF_FFFF);
        assert_eq!(id.kind() == IdKind::Pair, word >> 63 == 1);
        assert_eq!(id.is_active(), (word >> 62) & 1 == 0);
    }
}

#[test]
fn word_is_made_of_its_parts() {
    for word in sample_flagged_words() {
        let id = Identifier::from_bits(word);
        let rebuilt = Identifier::new(id.low(), id.high(), id.kind());
        let rebuilt = if id.is_active() {
            rebuilt
        } else {
            rebuilt.deactivate()
        };
        assert_eq!(rebuilt, id);
    }
}

#[test]
fn deactivate_sets_bit_sixty_two_alone() {
    for word in sample_flagged_words() {
        let id = Identifier::from_bits(word);
        assert_eq!(id.deactivate().to_bits(), word | (1 << 62));
        assert_eq!(id.activate().to_bits(), word & !(1 << 62));
    }
}

#[test]
fn reactivation_restores_an_active_identifier() {
    for word in sample_flagged_words() {
        let id = Identifier::from_bits(word).activate();
        assert!(id.is_active());
        assert!(!id.deactivate().is_active());
        assert_ne!(id.deactivate(), id);
        assert_eq!(id.deactivate().activate(), id);
    }
}

#[test]
fn reactivation_does_not_restore_a_deactivated_identifier() {
    let id = Identifier::from_bits(0x4000_0037_0000_000C);

    assert!(!id.is_active());
    assert_eq!(id.deactivate(), id);
    assert_ne!(id.deactivate().activate(), id);
    assert_eq!(id.deactivate().activate(), id.activate());
    assert_eq!(id.activate().deactivate(), id);
}

#[test]
fn last_activation_wins() {
    for word in sample_flagged_words() {
        let id = Identifier::from_bits(word);
        assert_eq!(id.deactivate().activate(), id.activate());
        assert_eq!(id.activate().deactivate(), id.deactivate());
        assert_eq!(id.activate().activate(), id.activate());
        assert_eq!(id.deactivate().deactivate(), id.deactivate());
    }
}

#[test]
fn activation_keeps_kind_low_and_high() {
    for word in sample_flagged_words() {
        let id = Identifier::from_bits(word);
        for changed in [id.activate(), id.deactivate()] {
            assert_eq!(changed.kind(), id.kind());
            assert_eq!(changed.low(), id.low());
            assert_eq!(changed.high(), id.high());
        }
    }
}

#[test]
fn kind_keeps_activation_low_and_high() {
    for word in sample_flagged_words() {
        let id = Identifier::from_bits(word);
        let other = Identifier::from_bits(word ^ (1 << 63));
        assert_ne!(other.kind(), id.kind());
        assert_eq!(other.is_active(), id.is_active());
        assert_eq!(other.low(), id.low());
        assert_eq!(other.high(), id.high());
    }
}

#[test]
fn flagged_equality_is_that_of_the_words() {
    for a in sample_flagged_words() {
        for b in sample_flagged_words() {
            assert_eq!(Identifier::from_bits(a) == Identifier::from_bits(b), a == b);
        }
    }
}

#[test]
fn flagged_order_is_that_of_the_words() {
    for a in sample_flagged_words() {
        for b in sample_flagged_words() {
            let x = Identifier::from_bits(a);
            let y = Identifier::from_bits(b);
            assert_eq!(x < y, a < b);
            assert_eq!(x <= y, a <= b);
            assert_eq!(x > y, a > b);
            assert_eq!(x >= y, a >= b);
            assert_eq!(x.partial_cmp(&y), a.partial_cmp(&b));
            assert_eq!(x.cmp(&y), a.cmp(&b));
        }
    }
}
