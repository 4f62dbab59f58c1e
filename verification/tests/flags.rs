use screencast::{CursorMode, CursorModes, PersistMode, SourceType, SourceTypes};

#[test]
fn source_type_bits_follow_the_table() {
    assert_eq!(SourceType::Monitor.bit(), 1);
    assert_eq!(SourceType::Window.bit(), 2);
    assert_eq!(SourceType::Virtual.bit(), 4);
}

#[test]
fn cursor_mode_bits_follow_the_table() {
    assert_eq!(CursorMode::Hidden.bit(), 1);
    assert_eq!(CursorMode::Embedded.bit(), 2);
    assert_eq!(CursorMode::Metadata.bit(), 4);
}

#[test]
fn empty_sets_encode_to_zero() {
    assert_eq!(SourceTypes::empty().bits(), 0);
    assert_eq!(CursorModes::empty().bits(), 0);
    assert!(!SourceTypes::empty().contains(SourceType::Monitor));
    assert!(!CursorModes::empty().contains(CursorMode::Hidden));
}

#[test]
fn a_set_of_one_member_encodes_to_the_bit_of_that_member() {
    for member in [SourceType::Monitor, SourceType::Window, SourceType::Virtual] {
        let set = SourceTypes::from_flag(member);
        assert_eq!(set.bits(), member.bit());
        for other in [SourceType::Monitor, SourceType::Window, SourceType::Virtual] {
            assert_eq!(set.contains(other), other == member);
        }
    }
    for member in [CursorMode::Hidden, CursorMode::Embedded, CursorMode::Metadata] {
        let set = CursorModes::from_flag(member);
        assert_eq!(set.bits(), member.bit());
        for other in [CursorMode::Hidden, CursorMode::Embedded, CursorMode::Metadata] {
            assert_eq!(set.contains(other), other == member);
        }
    }
}

#[test]
fn adding_members_adds_their_bits() {
    let set = SourceTypes::empty().with(SourceType::Window).with(SourceType::Virtual);
    assert_eq!(set.bits(), 6);
    assert!(!set.contains(SourceType::Monitor));
    assert!(set.contains(SourceType::Window));
    assert!(set.contains(SourceType::Virtual));
    assert_eq!(set.with(SourceType::Window), set);

    let modes = CursorModes::from_flag(CursorMode::Hidden).with(CursorMode::Embedded);
    assert_eq!(modes.bits(), 3);
    assert_eq!(modes, CursorModes { hidden: true, embedded: true, metadata: false });
}

#[test]
fn every_integer_below_eight_decodes_to_the_set_that_encodes_to_it() {
    for bits in 0u32..8 {
        let sources = SourceTypes::from_bits(bits).unwrap();
        assert_eq!(sources.bits(), bits);
        assert_eq!(sources.monitor, bits & 1 != 0);
        assert_eq!(sources.window, bits & 2 != 0);
        assert_eq!(sources.virtual_source, bits & 4 != 0);

        let modes = CursorModes::from_bits(bits).unwrap();
        assert_eq!(modes.bits(), bits);
        assert_eq!(modes.hidden, bits & 1 != 0);
        assert_eq!(modes.embedded, bits & 2 != 0);
        assert_eq!(modes.metadata, bits & 4 != 0);
    }
}

#[test]
fn an_integer_with_an_unknown_bit_decodes_to_nothing() {
    for bits in [8u32, 9, 15, 16, 0x8000_0001, u32::MAX] {
        assert_eq!(SourceTypes::from_bits(bits), None);
        assert_eq!(CursorModes::from_bits(bits), None);
    }
}

#[test]
fn the_pointer_is_drawn_unless_only_hiding_is_asked_for() {
    assert!(!CursorModes::empty().show_cursor());
    assert!(!CursorModes::from_flag(CursorMode::Hidden).show_cursor());
    assert!(CursorModes::from_flag(CursorMode::Embedded).show_cursor());
    assert!(CursorModes::from_flag(CursorMode::Metadata).show_cursor());
    assert!(CursorModes::from_flag(CursorMode::Hidden).with(CursorMode::Embedded).show_cursor());
    assert!(CursorModes::from_bits(7).unwrap().show_cursor());
}

#[test]
fn persist_modes_have_the_codes_zero_to_two() {
    assert_eq!(PersistMode::DoNotPersist.code(), 0);
    assert_eq!(PersistMode::PersistWhileRunning.code(), 1);
    assert_eq!(PersistMode::PersistUntilRevoked.code(), 2);
    assert_eq!(PersistMode::from_code(0), Some(PersistMode::DoNotPersist));
    assert_eq!(PersistMode::from_code(1), Some(PersistMode::PersistWhileRunning));
    assert_eq!(PersistMode::from_code(2), Some(PersistMode::PersistUntilRevoked));
    assert_eq!(PersistMode::from_code(3), None);
    assert_eq!(PersistMode::from_code(u32::MAX), None);
}
