use bytebuf::buffer::ByteBuf;
use bytebuf::errors::BufError;

// --- construction ---

#[test]
fn new_none_is_empty() {
    let b = ByteBuf::new(None);
    assert_eq!(b.get_capacity(), 0);
    assert_eq!(b.get_readable_bytes(), 0);
    assert_eq!(b.get_reader_index(), 0);
    assert_eq!(b.get_writer_index(), 0);
    assert!(!b.is_read_only());
}

#[test]
fn new_some_is_fully_readable() {
    let b = ByteBuf::new(Some(vec![1u8, 2, 3]));
    assert_eq!(b.get_capacity(), 3);
    assert_eq!(b.get_readable_bytes(), 3);
    assert_eq!(b.get_reader_index(), 0);
    assert_eq!(b.get_writer_index(), 3);
}

#[test]
fn with_initial_capacity_reserves_writable_space() {
    let b = ByteBuf::with_initial_capacity(8);
    assert_eq!(b.get_capacity(), 8);
    assert_eq!(b.get_readable_bytes(), 0);
    assert_eq!(b.get_writable_bytes(), 8);
}

#[test]
fn from_byte_array_is_fully_readable() {
    let b = ByteBuf::from_byte_array(vec![9u8, 8, 7, 6]);
    assert_eq!(b.get_readable_bytes(), 4);
    assert_eq!(b.get_writable_bytes(), 0);
    assert_eq!(b.get_array(), vec![9u8, 8, 7, 6]);
}

// --- scenario: big-endian then little-endian shorts ---

#[test]
fn scenario_short_then_short_le() {
    let mut b = ByteBuf::from_byte_array(vec![0x00u8, 0x01, 0x02, 0x03]);
    assert_eq!(b.read_short(), Ok(0x0001));
    assert_eq!(b.read_short_le(), Ok(0x0302));
    assert_eq!(b.get_readable_bytes(), 0);
}

// --- scenario: medium written into a fresh buffer ---

#[test]
fn scenario_write_medium_readable_view() {
    let mut b = ByteBuf::with_initial_capacity(4);
    assert_eq!(b.write_medium(0x123456), Ok(()));
    assert_eq!(b.get_buffer(), vec![0x12u8, 0x34, 0x56]);
}

// --- scenario: read from an empty buffer fails without effect ---

#[test]
fn scenario_read_byte_empty_fails_out_of_range() {
    let mut b = ByteBuf::new(None);
    assert_eq!(
        b.read_byte(),
        Err(BufError::OutOfRange { requested: 1, limit: 0 })
    );
    assert_eq!(b.get_readable_bytes(), 0);
    assert_eq!(b.get_reader_index(), 0);
    assert_eq!(b.get_writer_index(), 0);
}

// --- scenario: a read-only snapshot is independent ---

#[test]
fn scenario_read_only_snapshot_rejects_writes() {
    let mut b = ByteBuf::from_byte_array(vec![0xFFu8]);
    let mut ro = b.as_read_only();
    assert!(ro.is_read_only());
    assert_eq!(ro.write_byte(1), Err(BufError::ReadOnlyViolation));
    assert_eq!(ro.get_array(), vec![0xFFu8]);
    assert_eq!(ro.get_writable_bytes(), 0);
    assert_eq!(b.write_byte(1), Ok(()));
    assert_eq!(ro.get_array(), vec![0xFFu8]);
    assert_eq!(b.get_array(), vec![0xFFu8, 0x01]);
}

// --- scenario: combined cursor set is atomic ---

#[test]
fn scenario_set_index_checks_order() {
    let mut b = ByteBuf::with_initial_capacity(10);
    assert_eq!(b.set_index(2, 5), Ok(()));
    assert_eq!(b.get_reader_index(), 2);
    assert_eq!(b.get_writer_index(), 5);
    assert_eq!(
        b.set_index(5, 2),
        Err(BufError::OutOfRange { requested: 2, limit: 5 })
    );
    assert_eq!(b.get_reader_index(), 2);
    assert_eq!(b.get_writer_index(), 5);
}

// --- round trips, both endiannesses ---

#[test]
fn round_trip_boolean() {
    let mut b = ByteBuf::new(None);
    assert_eq!(b.write_boolean(true), Ok(()));
    assert_eq!(b.write_boolean(false), Ok(()));
    assert_eq!(b.read_boolean(), Ok(true));
    assert_eq!(b.read_boolean(), Ok(false));
}

#[test]
fn round_trip_byte_extremes() {
    let mut b = ByteBuf::new(None);
    for v in [-128i32, -1, 0, 1, 127] {
        assert_eq!(b.write_byte(v), Ok(()));
        assert_eq!(b.read_byte(), Ok(v));
    }
}

#[test]
fn round_trip_unsigned_byte_extremes() {
    let mut b = ByteBuf::new(None);
    for v in [0i32, 1, 127, 128, 255] {
        assert_eq!(b.write_byte(v), Ok(()));
        assert_eq!(b.read_unsigned_byte(), Ok(v as u32));
    }
}

#[test]
fn round_trip_short_big_endian() {
    let mut b = ByteBuf::new(None);
    for v in [-32768i32, -1, 0, 1, 0x1234, 32767] {
        assert_eq!(b.write_short(v), Ok(()));
        assert_eq!(b.read_short(), Ok(v));
    }
}

#[test]
fn round_trip_short_little_endian() {
    let mut b = ByteBuf::new(None);
    for v in [-32768i32, -1, 0, 1, 0x1234, 32767] {
        assert_eq!(b.write_short_le(v), Ok(()));
        assert_eq!(b.read_short_le(), Ok(v));
    }
}

#[test]
fn round_trip_unsigned_short_both_endiannesses() {
    let mut b = ByteBuf::new(None);
    for v in [0i32, 1, 0x7FFF, 0x8000, 0xFFFF] {
        assert_eq!(b.write_short(v), Ok(()));
        assert_eq!(b.read_unsigned_short(), Ok(v as u32));
        assert_eq!(b.write_short_le(v), Ok(()));
        assert_eq!(b.read_unsigned_short_le(), Ok(v as u32));
    }
}

#[test]
fn round_trip_medium_extremes() {
    let mut b = ByteBuf::new(None);
    for v in [0i32, 1, 0x123456, 0x7FFFFF, 0x800000, 0xFFFFFF] {
        assert_eq!(b.write_medium(v), Ok(()));
        assert_eq!(b.read_medium(), Ok(v));
    }
}

// --- exact wire layouts ---

#[test]
fn short_wire_layout_big_endian() {
    let mut b = ByteBuf::new(None);
    assert_eq!(b.write_short(0x1234), Ok(()));
    assert_eq!(b.get_buffer(), vec![0x12u8, 0x34]);
}

#[test]
fn short_wire_layout_little_endian() {
    let mut b = ByteBuf::new(None);
    assert_eq!(b.write_short_le(0x1234), Ok(()));
    assert_eq!(b.get_buffer(), vec![0x34u8, 0x12]);
}

#[test]
fn negative_short_wire_layout_is_twos_complement() {
    let mut b = ByteBuf::new(None);
    assert_eq!(b.write_short(-2), Ok(()));
    assert_eq!(b.get_buffer(), vec![0xFFu8, 0xFE]);
}

#[test]
fn write_byte_truncates_to_low_eight_bits() {
    let mut b = ByteBuf::new(None);
    assert_eq!(b.write_byte(0x1FF), Ok(()));
    assert_eq!(b.write_byte(-1), Ok(()));
    assert_eq!(b.get_buffer(), vec![0xFFu8, 0xFF]);
}

#[test]
fn write_medium_truncates_to_low_24_bits() {
    let mut b = ByteBuf::new(None);
    assert_eq!(b.write_medium(0x7F123456), Ok(()));
    assert_eq!(b.get_buffer(), vec![0x12u8, 0x34, 0x56]);
}

#[test]
fn medium_has_no_sign_extension_beyond_bit_23() {
    let mut b = ByteBuf::from_byte_array(vec![0xFFu8, 0xFF, 0xFF]);
    assert_eq!(b.read_medium(), Ok(0xFFFFFF));
}

#[test]
fn boolean_reads_any_nonzero_byte_as_true() {
    let mut b = ByteBuf::from_byte_array(vec![0x00u8, 0x2A]);
    assert_eq!(b.read_boolean(), Ok(false));
    assert_eq!(b.read_boolean(), Ok(true));
}

// --- bounds and failed reads leave the state unchanged ---

#[test]
fn short_read_needs_two_bytes() {
    let mut b = ByteBuf::from_byte_array(vec![0x01u8]);
    assert_eq!(
        b.read_short(),
        Err(BufError::OutOfRange { requested: 2, limit: 1 })
    );
    assert_eq!(
        b.read_unsigned_short_le(),
        Err(BufError::OutOfRange { requested: 2, limit: 1 })
    );
    assert_eq!(b.get_reader_index(), 0);
    assert_eq!(b.read_byte(), Ok(1));
}

#[test]
fn medium_read_needs_three_bytes() {
    let mut b = ByteBuf::from_byte_array(vec![0x01u8, 0x02]);
    assert_eq!(
        b.read_medium(),
        Err(BufError::OutOfRange { requested: 3, limit: 2 })
    );
    assert_eq!(b.get_reader_index(), 0);
}

#[test]
fn skip_bytes_advances_and_checks_bounds() {
    let mut b = ByteBuf::from_byte_array(vec![1u8, 2, 3, 4]);
    assert_eq!(b.skip_bytes(3), Ok(()));
    assert_eq!(b.get_reader_index(), 3);
    assert_eq!(
        b.skip_bytes(2),
        Err(BufError::OutOfRange { requested: 2, limit: 1 })
    );
    assert_eq!(b.get_reader_index(), 3);
    assert_eq!(b.read_byte(), Ok(4));
}

#[test]
fn set_reader_index_cannot_pass_writer() {
    let mut b = ByteBuf::from_byte_array(vec![1u8, 2]);
    assert_eq!(b.set_reader_index(2), Ok(()));
    assert_eq!(
        b.set_reader_index(3),
        Err(BufError::OutOfRange { requested: 3, limit: 2 })
    );
    assert_eq!(b.get_reader_index(), 2);
}

#[test]
fn set_writer_index_checks_both_bounds() {
    let mut b = ByteBuf::with_initial_capacity(10);
    assert_eq!(b.set_index(0, 4), Ok(()));
    assert_eq!(b.set_reader_index(2), Ok(()));
    assert_eq!(
        b.set_writer_index(1),
        Err(BufError::OutOfRange { requested: 1, limit: 2 })
    );
    assert_eq!(
        b.set_writer_index(11),
        Err(BufError::CapacityViolation { requested: 11, capacity: 10 })
    );
    assert_eq!(b.set_writer_index(10), Ok(()));
    assert_eq!(b.get_writer_index(), 10);
}

#[test]
fn set_index_checks_capacity() {
    let mut b = ByteBuf::with_initial_capacity(10);
    assert_eq!(
        b.set_index(0, 11),
        Err(BufError::CapacityViolation { requested: 11, capacity: 10 })
    );
    assert_eq!(b.get_writer_index(), 0);
}

// --- read-only mode ---

#[test]
fn read_only_rejects_every_mutation() {
    let b = ByteBuf::from_byte_array(vec![1u8, 2, 3]);
    let mut ro = b.as_read_only();
    assert_eq!(ro.get_reader_index(), 0);
    assert_eq!(ro.get_writer_index(), 0);
    assert_eq!(ro.write_boolean(true), Err(BufError::ReadOnlyViolation));
    assert_eq!(ro.write_byte(1), Err(BufError::ReadOnlyViolation));
    assert_eq!(ro.write_short(1), Err(BufError::ReadOnlyViolation));
    assert_eq!(ro.write_short_le(1), Err(BufError::ReadOnlyViolation));
    assert_eq!(ro.write_medium(1), Err(BufError::ReadOnlyViolation));
    assert_eq!(ro.write_bytes(&[1u8]), Err(BufError::ReadOnlyViolation));
    assert_eq!(ro.set_writer_index(1), Err(BufError::ReadOnlyViolation));
    assert_eq!(ro.set_index(0, 1), Err(BufError::ReadOnlyViolation));
    assert_eq!(ro.set_capacity(1), Err(BufError::ReadOnlyViolation));
    assert_eq!(ro.get_array(), vec![1u8, 2, 3]);
    assert_eq!(ro.get_capacity(), 3);
    assert!(!ro.is_writable(None));
    assert_eq!(ro.get_writable_bytes(), 0);
}

#[test]
fn read_only_snapshot_has_nothing_readable() {
    let b = ByteBuf::from_byte_array(vec![1u8, 2, 3]);
    let mut ro = b.as_read_only();
    assert_eq!(ro.get_readable_bytes(), 0);
    assert!(!ro.is_readable(None));
    assert_eq!(
        ro.read_byte(),
        Err(BufError::OutOfRange { requested: 1, limit: 0 })
    );
}

// --- clear ---

#[test]
fn clear_is_idempotent_and_preserves_capacity() {
    let mut b = ByteBuf::from_byte_array(vec![1u8, 2, 3]);
    b.clear();
    assert_eq!(b.get_readable_bytes(), 0);
    assert_eq!(b.get_reader_index(), 0);
    assert_eq!(b.get_writer_index(), 0);
    assert_eq!(b.get_capacity(), 3);
    let snapshot = b.get_array();
    b.clear();
    assert_eq!(b.get_readable_bytes(), 0);
    assert_eq!(b.get_reader_index(), 0);
    assert_eq!(b.get_writer_index(), 0);
    assert_eq!(b.get_capacity(), 3);
    assert_eq!(b.get_array(), snapshot);
}

// --- capacity management ---

#[test]
fn writing_beyond_capacity_grows_and_preserves_bytes() {
    let mut b = ByteBuf::with_initial_capacity(2);
    assert_eq!(b.write_byte(0x11), Ok(()));
    assert_eq!(b.write_byte(0x22), Ok(()));
    assert_eq!(b.write_byte(0x33), Ok(()));
    assert_eq!(b.write_short(0x4455), Ok(()));
    assert!(b.get_capacity() >= 5);
    assert_eq!(b.get_buffer(), vec![0x11u8, 0x22, 0x33, 0x44, 0x55]);
}

#[test]
fn growth_is_geometric() {
    let mut b = ByteBuf::with_initial_capacity(4);
    assert_eq!(b.set_writer_index(4), Ok(()));
    assert_eq!(b.write_byte(0x01), Ok(()));
    assert_eq!(b.get_capacity(), 8);
}

#[test]
fn set_capacity_grows_with_zero_fill() {
    let mut b = ByteBuf::from_byte_array(vec![7u8]);
    assert_eq!(b.set_capacity(3), Ok(()));
    assert_eq!(b.get_capacity(), 3);
    assert_eq!(b.get_array(), vec![7u8, 0, 0]);
    assert_eq!(b.get_reader_index(), 0);
    assert_eq!(b.get_writer_index(), 1);
}

#[test]
fn set_capacity_shrink_truncates_and_clamps_cursors() {
    let mut b = ByteBuf::from_byte_array(vec![1u8, 2, 3, 4, 5]);
    assert_eq!(b.set_reader_index(3), Ok(()));
    assert_eq!(b.set_capacity(2), Ok(()));
    assert_eq!(b.get_capacity(), 2);
    assert_eq!(b.get_reader_index(), 2);
    assert_eq!(b.get_writer_index(), 2);
    assert_eq!(b.get_array(), vec![1u8, 2]);
}

#[test]
fn set_capacity_shrink_keeps_reader_below_new_capacity() {
    let mut b = ByteBuf::from_byte_array(vec![1u8, 2, 3, 4]);
    assert_eq!(b.set_reader_index(1), Ok(()));
    assert_eq!(b.set_capacity(2), Ok(()));
    assert_eq!(b.get_reader_index(), 1);
    assert_eq!(b.get_writer_index(), 2);
    assert_eq!(b.read_byte(), Ok(2));
}

#[test]
fn skip_zero_bytes_succeeds_on_empty_buffer() {
    let mut b = ByteBuf::new(None);
    assert_eq!(b.skip_bytes(0), Ok(()));
    assert_eq!(b.get_reader_index(), 0);
}

// --- window queries ---

#[test]
fn is_readable_and_is_writable_thresholds() {
    let mut b = ByteBuf::with_initial_capacity(3);
    assert!(!b.is_readable(None));
    assert!(b.is_writable(None));
    assert!(b.is_writable(Some(3)));
    assert!(!b.is_writable(Some(4)));
    assert_eq!(b.write_short(0x0102), Ok(()));
    assert!(b.is_readable(None));
    assert!(b.is_readable(Some(2)));
    assert!(!b.is_readable(Some(3)));
    assert!(b.is_writable(Some(1)));
    assert!(!b.is_writable(Some(2)));
    assert!(b.is_readable(Some(0)));
}

#[test]
fn get_buffer_returns_only_the_readable_window() {
    let mut b = ByteBuf::from_byte_array(vec![1u8, 2, 3, 4]);
    assert_eq!(b.skip_bytes(1), Ok(()));
    assert_eq!(b.get_buffer(), vec![2u8, 3, 4]);
    assert_eq!(b.get_array(), vec![1u8, 2, 3, 4]);
}

// --- write_bytes ---

#[test]
fn write_bytes_appends_verbatim() {
    let mut b = ByteBuf::new(None);
    assert_eq!(b.write_bytes(&[1u8, 2, 3]), Ok(()));
    assert_eq!(b.write_bytes(&[]), Ok(()));
    assert_eq!(b.write_bytes(&[4u8]), Ok(()));
    assert_eq!(b.get_buffer(), vec![1u8, 2, 3, 4]);
    assert_eq!(b.get_writer_index(), 4);
}

// --- error rendering ---

#[test]
fn describe_names_the_bounds() {
    let text = BufError::OutOfRange { requested: 9, limit: 4 }.describe();
    assert!(text.contains('9'));
    assert!(text.contains('4'));
    let text = BufError::CapacityViolation { requested: 11, capacity: 10 }.describe();
    assert!(text.contains("11"));
    assert!(text.contains("10"));
    assert!(!BufError::ReadOnlyViolation.describe().is_empty());
}
