use oracle::error::{classify_fetch, FetchStatus, OracleError, OCI_ERROR};
use oracle::implementors::{GeneralMetaProvider, GeneralPairProvider};
use oracle::memory::{align_checked, align_size_to};
use oracle::params::{
    has_consistent_style, Identifier, Member, ParamValue, ParamsProcessor, ParamsProvider,
};
use oracle::results::{ResultProcessor, ResultValue};
use oracle::types::{
    float_sqltype, string_sqltype, SqlDate, SqlDateTime, SqlType, TypeDescriptor,
    TypeDescriptorProducer,
};

#[test]
fn align_size_to_rounds_up_to_the_next_multiple() {
    assert_eq!(align_size_to(2000, 1024), 2048);
    assert_eq!(align_size_to(1, 128), 128);
    assert_eq!(align_size_to(129, 128), 256);
}

#[test]
fn align_size_to_keeps_multiples_and_zero() {
    assert_eq!(align_size_to(0, 64), 0);
    assert_eq!(align_size_to(256, 256), 256);
    assert_eq!(align_size_to(1024, 128), 1024);
}

#[test]
fn align_checked_refuses_sizes_beyond_the_largest_area() {
    assert_eq!(align_checked(130, 64), Some(192));
    assert_eq!(align_checked(usize::MAX, 256), None);
    assert_eq!(align_checked(isize::MAX as usize, 256), None);
    assert_eq!(align_checked(isize::MAX as usize - 255, 256), Some(isize::MAX as usize - 255));
}

#[test]
fn integer_descriptors_have_the_integer_code_and_native_width() {
    assert_eq!(<i16 as TypeDescriptorProducer<i16>>::produce(), TypeDescriptor::new(3, 2));
    assert_eq!(<i32 as TypeDescriptorProducer<i32>>::produce(), TypeDescriptor::new(3, 4));
    assert_eq!(<i64 as TypeDescriptorProducer<i64>>::produce(), TypeDescriptor::new(3, 8));
    assert_eq!(<u16 as TypeDescriptorProducer<u16>>::produce(), TypeDescriptor::new(3, 2));
    assert_eq!(<u32 as TypeDescriptorProducer<u32>>::produce(), TypeDescriptor::new(3, 4));
    assert_eq!(<u64 as TypeDescriptorProducer<u64>>::produce(), TypeDescriptor::new(3, 8));
}

#[test]
fn bool_travels_as_a_sixteen_bit_integer() {
    assert_eq!(<bool as TypeDescriptorProducer<bool>>::produce(), TypeDescriptor::new(3, 2));
}

#[test]
fn float_descriptor_has_the_float_code_and_eight_bytes() {
    assert_eq!(float_sqltype(), TypeDescriptor::new(4, 8));
    assert_eq!(TypeDescriptor::for_sql_type(SqlType::Float64), TypeDescriptor::new(4, 8));
}

#[test]
fn date_descriptors_have_the_date_code_and_seven_bytes() {
    assert_eq!(<SqlDate as TypeDescriptorProducer<SqlDate>>::produce(), TypeDescriptor::new(12, 7));
    assert_eq!(
        <SqlDateTime as TypeDescriptorProducer<SqlDateTime>>::produce(),
        TypeDescriptor::new(12, 7)
    );
}

#[test]
fn string_descriptor_reserves_the_length_prefix() {
    assert_eq!(string_sqltype(32), TypeDescriptor::new(1, 34));
    assert_eq!(string_sqltype(0), TypeDescriptor::new(1, 2));
    assert_eq!(<String as TypeDescriptorProducer<String>>::produce_sized(10), TypeDescriptor::new(1, 12));
}

#[test]
fn string_capacity_defaults_to_128() {
    assert_eq!(<String as TypeDescriptorProducer<String>>::produce(), TypeDescriptor::new(1, 130));
    assert_eq!(<&str as TypeDescriptorProducer<&str>>::produce(), TypeDescriptor::new(1, 130));
}

#[test]
fn fetch_codes_are_read_as_the_stream_needs_them() {
    assert_eq!(classify_fetch(0), FetchStatus::Fetched);
    assert_eq!(classify_fetch(100), FetchStatus::EndOfData);
    assert_eq!(classify_fetch(1403), FetchStatus::EndOfData);
    assert_eq!(classify_fetch(1406), FetchStatus::Truncated);
    assert_eq!(classify_fetch(3113), FetchStatus::Failed);
    assert_eq!(classify_fetch(-1), FetchStatus::Failed);
}

#[test]
fn library_errors_carry_the_generic_code_and_their_label() {
    let e = OracleError::new("boom".to_string(), "prepare");
    assert_eq!(e.errcode, OCI_ERROR);
    assert_eq!(e.errcode, -1);
    assert_eq!(e.message, "boom");
    assert_eq!(e.location, "prepare");
    assert!(!e.ends_stream_normally());
    let s = OracleError::with_code(1406, "truncated".to_string(), "fetch");
    assert_eq!(s.errcode, 1406);
    assert!(s.ends_stream_normally());
    assert!(OracleError::with_code(100, String::new(), "fetch").ends_stream_normally());
    assert!(!OracleError::with_code(942, String::new(), "fetch").ends_stream_normally());
}

fn member(dtype: u16, size: usize) -> Member {
    Member::new(TypeDescriptor::new(dtype, size), Identifier::Unnamed)
}

#[test]
fn parameter_area_is_laid_out_as_indicators_lengths_values() {
    let p = ParamsProcessor::new(vec![member(3, 4), member(1, 130)]).unwrap();
    assert_eq!(p.indicators_size(), 64);
    assert_eq!(p.lengths_size(), 64);
    assert_eq!(p.values_size(), 256);
    assert_eq!(p.allocated_size(), 512);
    let b = p.bindings();
    assert_eq!(b.len(), 2);
    assert_eq!((b[0].position, b[0].dtype, b[0].size), (1, 3, 4));
    assert_eq!((b[0].indicator_offset, b[0].length_offset, b[0].value_offset), (0, 64, 128));
    assert_eq!((b[1].position, b[1].dtype, b[1].size), (2, 1, 130));
    assert_eq!((b[1].indicator_offset, b[1].length_offset, b[1].value_offset), (2, 68, 132));
}

#[test]
fn parameter_area_without_members_is_empty() {
    let p = ParamsProcessor::new(Vec::new()).unwrap();
    assert_eq!(p.allocated_size(), 0);
    assert_eq!(p.bindings().len(), 0);
    assert_eq!(p.render().len(), 0);
    assert_eq!(p.projection().len(), 0);
}

#[test]
fn parameter_area_keeps_named_members_named() {
    let named = Member::new(TypeDescriptor::new(3, 8), Identifier::Named("id"));
    let p = ParamsProcessor::new(vec![named]).unwrap();
    let b = p.bindings();
    assert!(matches!(b[0].identifier, Identifier::Named("id")));
    assert_eq!(b[0].position, 1);
}

#[test]
fn parameter_area_refuses_a_slot_beyond_the_length_field() {
    if usize::BITS > 32 {
        let too_large = u32::MAX as usize + 1;
        let made = ParamsProcessor::new(vec![member(1, too_large)]);
        assert!(made.is_err());
        let error = made.err().unwrap();
        assert_eq!(error.errcode, -1);
        assert_eq!(error.location, "prepare");
    }
    assert!(ParamsProcessor::new(vec![member(1, 4000)]).is_ok());
}

#[test]
fn result_area_size_follows_the_formula() {
    // one 4-byte column, 1000 rows: 4000 -> 4096 of values, 2000 -> 2048 of
    // indicators and as much of return lengths
    let r = ResultProcessor::new(vec![TypeDescriptor::new(3, 4)], 1000).unwrap();
    assert_eq!(r.allocated_size(), 8192);
    assert_eq!(r.buffer().len(), 8192);
    assert_eq!(r.prefetch_rows(), 1000);
    // 4 + 130 bytes per row, 10 rows: 1340 -> 1408; 2 * 10 * 2 = 40 -> 64
    let r = ResultProcessor::new(vec![TypeDescriptor::new(3, 4), TypeDescriptor::new(1, 130)], 10)
        .unwrap();
    assert_eq!(r.allocated_size(), 1536);
    // 7 bytes, one row: 7 -> 128; 2 -> 64; 128 + 128 = 256
    let r = ResultProcessor::new(vec![TypeDescriptor::new(12, 7)], 1).unwrap();
    assert_eq!(r.allocated_size(), 256);
}

#[test]
fn result_area_is_column_major() {
    let r = ResultProcessor::new(vec![TypeDescriptor::new(3, 4), TypeDescriptor::new(1, 130)], 10)
        .unwrap();
    let d = r.defines();
    assert_eq!(d.len(), 2);
    assert_eq!((d[0].position, d[0].dtype, d[0].size), (1, 3, 4));
    assert_eq!((d[0].indicator_offset, d[0].length_offset, d[0].value_offset), (0, 64, 128));
    assert_eq!((d[1].position, d[1].dtype, d[1].size), (2, 1, 130));
    assert_eq!((d[1].indicator_offset, d[1].length_offset, d[1].value_offset), (20, 84, 168));
}

#[test]
fn result_area_refuses_batches_without_rows() {
    let made = ResultProcessor::new(vec![TypeDescriptor::new(3, 4)], 0);
    assert!(made.is_err());
    let error = made.err().unwrap();
    assert_eq!(error.errcode, -1);
    assert_eq!(error.location, "query");
}

#[test]
fn result_area_without_columns_reads_empty_rows() {
    let r = ResultProcessor::new(Vec::new(), 5).unwrap();
    assert_eq!(r.allocated_size(), 0);
    assert_eq!(r.get_result(4).len(), 0);
}

#[test]
fn result_area_takes_only_images_of_its_size() {
    let mut r = ResultProcessor::new(vec![TypeDescriptor::new(3, 4)], 2).unwrap();
    let size = r.allocated_size();
    assert!(!r.replace_buffer(vec![1u8; size + 1]));
    assert_eq!(r.buffer()[0], 0);
    assert!(r.replace_buffer(vec![1u8; size]));
    assert_eq!(r.buffer()[0], 1);
}

#[test]
fn rows_are_read_from_their_cells() {
    // two columns (4-byte integer, 6-byte text), 3 rows
    let mut r = ResultProcessor::new(vec![TypeDescriptor::new(3, 4), TypeDescriptor::new(1, 6)], 3)
        .unwrap();
    let d = r.defines();
    let mut image = vec![0u8; r.allocated_size()];
    // row 1: integer 0x01020304, text "abc" of length 3
    let row = 1usize;
    image[d[0].value_offset + row * 4..d[0].value_offset + row * 4 + 4]
        .copy_from_slice(&0x01020304u32.to_le_bytes());
    image[d[0].length_offset + row * 2] = 4;
    image[d[1].value_offset + row * 6..d[1].value_offset + row * 6 + 3].copy_from_slice(b"abc");
    image[d[1].length_offset + row * 2] = 3;
    // row 2: integer NULL, text "zz"
    let row = 2usize;
    image[d[0].indicator_offset + row * 2..d[0].indicator_offset + row * 2 + 2]
        .copy_from_slice(&(-1i16).to_le_bytes());
    image[d[1].value_offset + row * 6..d[1].value_offset + row * 6 + 2].copy_from_slice(b"zz");
    image[d[1].length_offset + row * 2] = 2;
    assert!(r.replace_buffer(image));

    let cells = r.get_result(1);
    assert_eq!(cells.len(), 2);
    match &cells[0] {
        ResultValue::Val { data, len } => {
            assert_eq!(data, &vec![4u8, 3, 2, 1]);
            assert_eq!(*len, 4);
        }
        ResultValue::Nil => panic!("row 1 holds an integer"),
    }
    match &cells[1] {
        ResultValue::Val { data, len } => {
            assert_eq!(data, &vec![b'a', b'b', b'c', 0, 0, 0]);
            assert_eq!(*len, 3);
        }
        ResultValue::Nil => panic!("row 1 holds a text"),
    }
    let cells = r.get_result(2);
    assert!(cells[0].is_null());
    assert!(!cells[1].is_null());
    let cells = r.get_result(0);
    match &cells[0] {
        ResultValue::Val { data, len } => {
            assert_eq!(data, &vec![0u8; 4]);
            assert_eq!(*len, 0);
        }
        ResultValue::Nil => panic!("row 0 is present"),
    }
}

#[test]
fn single_value_provider_has_one_unnamed_member() {
    let provider: GeneralMetaProvider<i32> = GeneralMetaProvider::new();
    let members = ParamsProvider::<i32>::members(&provider);
    assert_eq!(members.len(), 1);
    assert_eq!(members[0].descriptor, TypeDescriptor::new(3, 4));
    assert!(matches!(members[0].identifier, Identifier::Unnamed));
}

#[test]
fn pair_provider_has_two_members_in_order() {
    let provider: GeneralPairProvider<i32, String> = GeneralPairProvider::new();
    let members = ParamsProvider::<(i32, String)>::members(&provider);
    assert_eq!(members.len(), 2);
    assert_eq!(members[0].descriptor, TypeDescriptor::new(3, 4));
    assert_eq!(members[1].descriptor, TypeDescriptor::new(1, 130));
}

#[test]
fn unit_provider_has_no_members() {
    assert_eq!(ParamsProvider::<()>::members(&()).len(), 0);
    let mut projection: Vec<ParamValue> = Vec::new();
    ().project_values(&(), &mut projection);
    assert_eq!(projection.len(), 0);
}

#[test]
fn members_are_bound_in_one_style() {
    let by_position = member(3, 4);
    let by_name = Member::new(TypeDescriptor::new(3, 4), Identifier::Named("id"));
    assert!(has_consistent_style(&Vec::new()));
    assert!(has_consistent_style(&vec![by_position, by_position]));
    assert!(has_consistent_style(&vec![by_name, by_name]));
    assert!(!has_consistent_style(&vec![by_position, by_name]));
    assert!(!has_consistent_style(&vec![by_name, by_name, by_position]));
    let provider: GeneralPairProvider<i32, String> = GeneralPairProvider::new();
    assert!(has_consistent_style(&ParamsProvider::<(i32, String)>::members(&provider)));
}
