use oracle::params::{ParamValue, ValueProjector};
use oracle::results::{FromResultValue, ResultValue};
use oracle::types::{SqlDate, SqlDateTime, TypeDescriptor, TypeDescriptorProducer};

fn slot_of<T: ValueProjector<T>>(value: &T, size: usize) -> ParamValue {
    let mut slot = ParamValue::new(size);
    value.project_value(&mut slot);
    slot
}

fn cell_of(slot: &ParamValue) -> ResultValue {
    if slot.is_null() {
        ResultValue::Nil
    } else {
        ResultValue::Val { data: slot.data().clone(), len: slot.length() as u16 }
    }
}

fn round_trip<T: ValueProjector<T> + FromResultValue>(value: &T, size: usize) -> T {
    let cell = cell_of(&slot_of(value, size));
    assert!(T::can_read(&cell));
    T::from_result(&cell)
}

#[test]
fn new_slot_is_empty_and_present() {
    let slot = ParamValue::new(6);
    assert_eq!(slot.size(), 6);
    assert_eq!(slot.length(), 0);
    assert_eq!(slot.indicator(), 0);
    assert_eq!(slot.data(), &vec![0u8; 6]);
    assert!(!slot.is_null());
}

#[test]
fn integers_are_written_little_endian_with_their_width_as_length() {
    let slot = slot_of(&0x01020304i32, 4);
    assert_eq!(slot.data(), &vec![4u8, 3, 2, 1]);
    assert_eq!(slot.indicator(), 0);
    assert_eq!(slot.length(), 4);
    let slot = slot_of(&-2i16, 2);
    assert_eq!(slot.data(), &vec![0xfeu8, 0xff]);
    assert_eq!(slot.length(), 2);
    let slot = slot_of(&1u64, 8);
    assert_eq!(slot.data(), &vec![1u8, 0, 0, 0, 0, 0, 0, 0]);
    assert_eq!(slot.length(), 8);
}

#[test]
fn integers_round_trip() {
    for v in [0i16, 1, -1, i16::MIN, i16::MAX, 12345] {
        assert_eq!(round_trip(&v, 2), v);
    }
    for v in [0u16, 1, u16::MAX, 54321] {
        assert_eq!(round_trip(&v, 2), v);
    }
    for v in [0i32, 42, -42, i32::MIN, i32::MAX] {
        assert_eq!(round_trip(&v, 4), v);
    }
    for v in [0u32, 7, u32::MAX] {
        assert_eq!(round_trip(&v, 4), v);
    }
    for v in [0i64, -7, i64::MIN, i64::MAX, 1 << 40] {
        assert_eq!(round_trip(&v, 8), v);
    }
    for v in [0u64, u64::MAX, 1 << 63] {
        assert_eq!(round_trip(&v, 8), v);
    }
}

#[test]
fn optional_integers_round_trip_and_read_null_as_none() {
    let cell = cell_of(&slot_of(&-5i32, 4));
    assert_eq!(<Option<i32>>::from_result(&cell), Some(-5));
    assert_eq!(<Option<i32>>::from_result(&ResultValue::Nil), None);
    assert_eq!(<Option<i16>>::from_result(&ResultValue::Nil), None);
    assert_eq!(<Option<u16>>::from_result(&ResultValue::Nil), None);
    assert_eq!(<Option<u32>>::from_result(&ResultValue::Nil), None);
    assert_eq!(<Option<i64>>::from_result(&ResultValue::Nil), None);
    assert_eq!(<Option<u64>>::from_result(&ResultValue::Nil), None);
    let cell = cell_of(&slot_of(&u64::MAX, 8));
    assert_eq!(<Option<u64>>::from_result(&cell), Some(u64::MAX));
}

#[test]
fn null_reads_as_the_default_of_the_type() {
    assert_eq!(i16::from_result(&ResultValue::Nil), 0);
    assert_eq!(u16::from_result(&ResultValue::Nil), 0);
    assert_eq!(i32::from_result(&ResultValue::Nil), 0);
    assert_eq!(u32::from_result(&ResultValue::Nil), 0);
    assert_eq!(i64::from_result(&ResultValue::Nil), 0);
    assert_eq!(u64::from_result(&ResultValue::Nil), 0);
    assert_eq!(bool::from_result(&ResultValue::Nil), false);
    assert_eq!(String::from_result(&ResultValue::Nil), "");
}

#[test]
fn integers_ignore_what_follows_them_in_the_slot() {
    let cell = ResultValue::Val { data: vec![0x2a, 0, 0, 0, 9, 9], len: 4 };
    assert_eq!(i32::from_result(&cell), 42);
    assert_eq!(i16::from_result(&cell), 42);
}

#[test]
fn a_cell_too_short_for_the_type_is_not_readable() {
    let cell = ResultValue::Val { data: vec![1, 2, 3], len: 3 };
    assert!(i16::can_read(&cell));
    assert!(!i32::can_read(&cell));
    assert!(!i64::can_read(&cell));
    assert!(!<Option<u32>>::can_read(&cell));
    assert!(!SqlDate::can_read(&cell));
    assert!(String::can_read(&cell));
    assert!(i64::can_read(&ResultValue::Nil));
}

#[test]
fn bool_is_one_or_zero_and_reads_nonzero_as_true() {
    let slot = slot_of(&true, 2);
    assert_eq!(slot.data(), &vec![1u8, 0]);
    assert_eq!(slot.length(), 2);
    let slot = slot_of(&false, 2);
    assert_eq!(slot.data(), &vec![0u8, 0]);
    assert_eq!(round_trip(&true, 2), true);
    assert_eq!(round_trip(&false, 2), false);
    assert_eq!(bool::from_result(&ResultValue::Val { data: vec![2, 0], len: 2 }), true);
    assert_eq!(bool::from_result(&ResultValue::Val { data: vec![0, 1], len: 2 }), true);
    assert_eq!(bool::from_result(&ResultValue::Val { data: vec![0, 0], len: 2 }), false);
}

#[test]
fn string_is_copied_with_its_byte_length() {
    let slot = slot_of(&"abc".to_string(), 8);
    assert_eq!(slot.data(), &vec![b'a', b'b', b'c', 0, 0, 0, 0, 0]);
    assert_eq!(slot.length(), 3);
    assert_eq!(slot.indicator(), 0);
    let slot = slot_of(&"héllo", 10);
    assert_eq!(slot.length(), 6);
    assert_eq!(&slot.data()[0..6], "héllo".as_bytes());
}

#[test]
fn string_longer_than_the_slot_is_cut_at_the_capacity() {
    let slot = slot_of(&"abcdefgh".to_string(), 5);
    assert_eq!(slot.data(), &b"abcde".to_vec());
    assert_eq!(slot.length(), 5);
    assert_eq!(slot.size(), 5);
    assert_eq!(slot.indicator(), 0);
}

#[test]
fn empty_string_is_bound_as_null() {
    let mut slot = ParamValue::new(4);
    "xy".project_value(&mut slot);
    "".project_value(&mut slot);
    assert_eq!(slot.indicator(), -1);
    assert!(slot.is_null());
    // only the indicator changes
    assert_eq!(slot.data(), &vec![b'x', b'y', 0, 0]);
    assert_eq!(slot.length(), 2);
    let mut slot = ParamValue::new(4);
    String::new().project_value(&mut slot);
    assert_eq!(slot.indicator(), -1);
}

#[test]
fn writing_a_value_after_a_null_makes_the_slot_present() {
    let mut slot = ParamValue::new(4);
    slot.project_null();
    assert!(slot.is_null());
    7i32.project_value(&mut slot);
    assert!(!slot.is_null());
    assert_eq!(slot.indicator(), 0);
    assert_eq!(i32::from_result(&cell_of(&slot)), 7);
}

#[test]
fn strings_round_trip() {
    assert_eq!(round_trip(&"abc".to_string(), 130), "abc");
    assert_eq!(round_trip(&"Grüße, 世界".to_string(), 130), "Grüße, 世界");
    let cell = cell_of(&slot_of(&"x".to_string(), 3));
    assert_eq!(<Option<String>>::from_result(&cell), Some("x".to_string()));
    assert_eq!(<Option<String>>::from_result(&ResultValue::Nil), None);
}

#[test]
fn string_reads_no_more_than_the_reported_length_and_the_slot() {
    let cell = ResultValue::Val { data: b"abcdef".to_vec(), len: 4 };
    assert_eq!(String::from_result(&cell), "abcd");
    let cell = ResultValue::Val { data: b"abc".to_vec(), len: 9 };
    assert_eq!(String::from_result(&cell), "abc");
    let cell = ResultValue::Val { data: b"abc".to_vec(), len: 0 };
    assert_eq!(String::from_result(&cell), "");
}

#[test]
fn string_with_malformed_bytes_is_read_with_replacements() {
    let cell = ResultValue::Val { data: vec![b'a', 0xff, b'b'], len: 3 };
    assert_eq!(String::from_result(&cell), "a\u{fffd}b");
}

#[test]
fn date_is_written_as_seven_bytes_in_excess_notation() {
    let slot = slot_of(&SqlDate { year: 2024, month: 2, day: 29 }, 7);
    assert_eq!(slot.data(), &vec![120u8, 124, 2, 29, 1, 1, 1]);
    assert_eq!(slot.length(), 7);
    assert_eq!(slot.indicator(), 0);
    let slot = slot_of(&SqlDate { year: 1999, month: 12, day: 31 }, 7);
    assert_eq!(slot.data(), &vec![119u8, 199, 12, 31, 1, 1, 1]);
}

#[test]
fn datetime_is_written_with_the_clock_in_excess_one() {
    let value = SqlDateTime { year: 2024, month: 2, day: 29, hour: 13, minute: 45, second: 59 };
    let slot = slot_of(&value, 7);
    assert_eq!(slot.data(), &vec![120u8, 124, 2, 29, 14, 46, 60]);
    let midnight = SqlDateTime { year: 2000, month: 1, day: 1, hour: 0, minute: 0, second: 0 };
    assert_eq!(slot_of(&midnight, 7).data(), &vec![120u8, 100, 1, 1, 1, 1, 1]);
}

#[test]
fn years_before_the_era_keep_their_sign_in_both_bytes() {
    let slot = slot_of(&SqlDate { year: -4712, month: 1, day: 1 }, 7);
    assert_eq!(slot.data(), &vec![53u8, 88, 1, 1, 1, 1, 1]);
    assert_eq!(round_trip(&SqlDate { year: -4712, month: 1, day: 1 }, 7).year, -4712);
}

#[test]
fn date_is_read_without_its_clock() {
    let cell = ResultValue::Val { data: vec![120, 124, 2, 29, 14, 46, 60], len: 7 };
    assert_eq!(SqlDate::from_result(&cell), SqlDate { year: 2024, month: 2, day: 29 });
    assert_eq!(
        <Option<SqlDate>>::from_result(&cell),
        Some(SqlDate { year: 2024, month: 2, day: 29 })
    );
}

#[test]
fn dates_round_trip() {
    for d in [
        SqlDate { year: 2024, month: 2, day: 29 },
        SqlDate { year: 1, month: 1, day: 1 },
        SqlDate { year: 9999, month: 12, day: 31 },
        SqlDate { year: -1, month: 6, day: 15 },
    ] {
        assert!(d.is_in_range());
        assert_eq!(round_trip(&d, 7), d);
    }
    for d in [
        SqlDateTime { year: 2024, month: 2, day: 29, hour: 23, minute: 59, second: 59 },
        SqlDateTime { year: 1970, month: 1, day: 1, hour: 0, minute: 0, second: 0 },
        SqlDateTime { year: -9999, month: 12, day: 31, hour: 12, minute: 30, second: 1 },
    ] {
        assert!(d.is_in_range());
        assert_eq!(round_trip(&d, 7), d);
    }
}

#[test]
fn null_date_reads_as_none_and_writes_no_bytes() {
    assert_eq!(<Option<SqlDate>>::from_result(&ResultValue::Nil), None);
    assert_eq!(<Option<SqlDateTime>>::from_result(&ResultValue::Nil), None);
    let mut slot = ParamValue::new(7);
    slot.project_optional(None);
    assert_eq!(slot.indicator(), -1);
    assert_eq!(slot.data(), &vec![0u8; 7]);
    assert_eq!(slot.length(), 0);
}

#[test]
fn optional_value_is_written_like_the_value() {
    let mut slot = ParamValue::new(4);
    slot.project_optional(Some(&[9u8, 8][..]));
    assert_eq!(slot.indicator(), 0);
    assert_eq!(slot.length(), 2);
    assert_eq!(slot.data(), &vec![9u8, 8, 0, 0]);
}

#[test]
fn null_date_without_option_reads_as_the_current_local_time() {
    let now = SqlDateTime::from_result(&ResultValue::Nil);
    assert!((1..=12).contains(&now.month));
    assert!((1..=31).contains(&now.day));
    assert!(now.hour <= 23 && now.minute <= 59 && now.second <= 59);
    assert!(now.year >= 2024);
    let today = SqlDate::from_result(&ResultValue::Nil);
    assert!((1..=12).contains(&today.month));
    assert!((1..=31).contains(&today.day));
    assert!(today.year >= 2024);
}

#[test]
fn datetime_with_a_zero_clock_byte_is_not_readable() {
    let cell = ResultValue::Val { data: vec![120, 124, 2, 29, 0, 1, 1], len: 7 };
    assert!(!SqlDateTime::can_read(&cell));
    assert!(!<Option<SqlDateTime>>::can_read(&cell));
    assert!(SqlDate::can_read(&cell));
    let cell = ResultValue::Val { data: vec![120, 124, 2, 29, 1, 1, 1], len: 7 };
    assert!(SqlDateTime::can_read(&cell));
    assert_eq!(
        SqlDateTime::from_result(&cell),
        SqlDateTime { year: 2024, month: 2, day: 29, hour: 0, minute: 0, second: 0 }
    );
}

#[test]
fn date_ranges_are_checked() {
    assert!(!SqlDate { year: 2024, month: 13, day: 1 }.is_in_range());
    assert!(!SqlDate { year: 2024, month: 0, day: 1 }.is_in_range());
    assert!(!SqlDate { year: 2024, month: 1, day: 32 }.is_in_range());
    assert!(!SqlDate { year: 10000, month: 1, day: 1 }.is_in_range());
    let t = SqlDateTime { year: 2024, month: 1, day: 1, hour: 24, minute: 0, second: 0 };
    assert!(!t.is_in_range());
    let t = SqlDateTime { year: 2024, month: 1, day: 1, hour: 23, minute: 59, second: 59 };
    assert!(t.is_in_range());
    assert_eq!(t.date(), SqlDate { year: 2024, month: 1, day: 1 });
}

#[test]
fn map_applies_to_present_cells_only() {
    let cell = ResultValue::Val { data: vec![1, 2, 3], len: 2 };
    assert_eq!(cell.map(|data, len| data.len() + len as usize), Some(5));
    assert_eq!(ResultValue::Nil.map(|data, len| data.len() + len as usize), None);
    assert_eq!(cell.map_or(0, |data, _| data[0] as i32), 1);
    assert_eq!(ResultValue::Nil.map_or(-7, |data, _| data[0] as i32), -7);
}

#[test]
fn holds_tells_whether_a_cell_has_room() {
    let cell = ResultValue::Val { data: vec![1, 2, 3], len: 2 };
    assert!(cell.holds(3));
    assert!(!cell.holds(4));
    assert!(ResultValue::Nil.holds(100));
    assert!(!cell.is_null());
}

#[test]
fn optional_values_are_written_like_values_and_none_as_null() {
    let mut slot = ParamValue::new(7);
    let none: Option<SqlDate> = None;
    none.project_value(&mut slot);
    assert_eq!(slot.indicator(), -1);
    assert_eq!(slot.data(), &vec![0u8; 7]);
    assert_eq!(slot.length(), 0);
    assert_eq!(<Option<SqlDate>>::from_result(&cell_of(&slot)), None);
    Some(SqlDate { year: 2024, month: 2, day: 29 }).project_value(&mut slot);
    assert_eq!(slot.indicator(), 0);
    assert_eq!(slot.data(), &vec![120u8, 124, 2, 29, 1, 1, 1]);
    assert_eq!(
        <Option<SqlDate>>::from_result(&cell_of(&slot)),
        Some(SqlDate { year: 2024, month: 2, day: 29 })
    );
    let mut slot = ParamValue::new(4);
    Some(5i32).project_value(&mut slot);
    assert_eq!(round_trip(&Some(-9i32), 4), Some(-9));
    assert_eq!(round_trip(&None::<i32>, 4), None);
    assert_eq!(slot.data(), &vec![5u8, 0, 0, 0]);
}

#[test]
fn optional_values_have_the_descriptor_of_the_value() {
    assert_eq!(<Option<i64> as TypeDescriptorProducer<Option<i64>>>::produce(), TypeDescriptor::new(3, 8));
    assert_eq!(
        <Option<String> as TypeDescriptorProducer<Option<String>>>::produce(),
        TypeDescriptor::new(1, 130)
    );
    assert_eq!(
        <Option<String> as TypeDescriptorProducer<Option<String>>>::produce_sized(8),
        TypeDescriptor::new(1, 10)
    );
}
