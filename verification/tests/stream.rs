use oracle::error::FetchStatus;
use oracle::implementors::{GeneralMetaProvider, GeneralPairProvider};
use oracle::params::{Identifier, Member, ParamsProjection, ParamsProvider};
use oracle::results::{IteratorStep, ResultIterator, ResultProcessor};
use oracle::statement::{Query, Statement, FETCH_ONE_LOCATION, GEN_RESULT_LOCATION};
use oracle::types::{SqlDate, SqlDateTime};

/// A server that holds `total` rows of one integer column, the numbers from
/// one on, and hands them out in batches.
struct Levels {
    total: u32,
    sent: u32,
    fail_at_fetch: Option<(u32, i32)>,
    fetches: u32,
}

impl Levels {
    fn new(total: u32) -> Levels {
        Levels { total, sent: 0, fail_at_fetch: None, fetches: 0 }
    }

    /// Fills the area with the next batch; gives the status code and the
    /// rows of the batch.
    fn fetch(&mut self, area: &mut ResultProcessor) -> (i32, u32) {
        self.fetches += 1;
        if let Some((at, code)) = self.fail_at_fetch {
            if at == self.fetches {
                return (code, 0);
            }
        }
        let batch = area.prefetch_rows() as u32;
        let rows = batch.min(self.total - self.sent);
        let defines = area.defines();
        let mut image = area.buffer().clone();
        for r in 0..rows as usize {
            let at = defines[0].value_offset + r * 4;
            image[at..at + 4].copy_from_slice(&(self.sent as i32 + r as i32 + 1).to_le_bytes());
            image[defines[0].indicator_offset + 2 * r] = 0;
            image[defines[0].indicator_offset + 2 * r + 1] = 0;
            image[defines[0].length_offset + 2 * r] = 4;
        }
        assert!(area.replace_buffer(image));
        self.sent += rows;
        (if rows < batch { 100 } else { 0 }, rows)
    }
}

type IntQuery = Query<(), i32, (), GeneralMetaProvider<i32>>;

fn int_query(prefetch_rows: usize) -> IntQuery {
    let stmt: Statement<(), ()> = Statement::new(()).unwrap();
    stmt.query_many(GeneralMetaProvider::new(), prefetch_rows).unwrap()
}

/// Runs the stream to its end; gives the rows, the error code if the
/// stream ended with one, and the warnings.
fn drain(query: &mut IntQuery, server: &mut Levels) -> (Vec<i32>, Option<i32>, u32) {
    let image = query.bind(&());
    assert_eq!(image.len(), 0);
    let (code, rows) = server.fetch(&mut query.results);
    let success = code == 0;
    let mut iterator = query.fetch_iter(success, rows);
    let mut out = Vec::new();
    let mut warnings = 0;
    loop {
        match iterator.next_step() {
            IteratorStep::Row(index) => out.push(query.read_row(index).unwrap()),
            IteratorStep::End => return (out, None, warnings),
            IteratorStep::Fetch => {
                let (code, rows) = server.fetch(&mut query.results);
                match iterator.on_fetch(code, rows) {
                    FetchStatus::Failed => {
                        assert_eq!(iterator.next_step(), IteratorStep::End);
                        assert!(iterator.is_finished());
                        return (out, Some(code), warnings);
                    }
                    FetchStatus::Truncated => warnings += 1,
                    _ => {}
                }
            }
        }
    }
}

#[test]
fn empty_result_set_yields_nothing() {
    let mut query = int_query(10);
    let mut server = Levels::new(0);
    let (rows, error, _) = drain(&mut query, &mut server);
    assert_eq!(rows, Vec::<i32>::new());
    assert_eq!(error, None);
    assert_eq!(server.fetches, 1);
}

#[test]
fn exactly_one_batch_yields_the_batch_then_ends() {
    let mut query = int_query(10);
    let mut server = Levels::new(10);
    let (rows, error, _) = drain(&mut query, &mut server);
    assert_eq!(rows, (1..=10).collect::<Vec<i32>>());
    assert_eq!(error, None);
    // the execution and one fetch that finds no data
    assert_eq!(server.fetches, 2);
}

#[test]
fn one_row_beyond_the_batch_takes_one_more_fetch() {
    let mut query = int_query(10);
    let mut server = Levels::new(11);
    let (rows, error, _) = drain(&mut query, &mut server);
    assert_eq!(rows, (1..=11).collect::<Vec<i32>>());
    assert_eq!(error, None);
    assert_eq!(server.fetches, 2);
}

#[test]
fn streaming_2500_rows_in_batches_of_1000() {
    let mut query = int_query(1000);
    let mut server = Levels::new(2500);
    let (rows, error, _) = drain(&mut query, &mut server);
    assert_eq!(rows.len(), 2500);
    assert_eq!(rows, (1..=2500).collect::<Vec<i32>>());
    assert_eq!(error, None);
    assert_eq!(server.fetches, 3);
}

#[test]
fn failed_fetch_is_handed_out_once_after_the_rows_before_it() {
    let mut query = int_query(10);
    let mut server = Levels::new(35);
    server.fail_at_fetch = Some((3, 3113));
    let (rows, error, _) = drain(&mut query, &mut server);
    assert_eq!(rows, (1..=20).collect::<Vec<i32>>());
    assert_eq!(error, Some(3113));
    assert_eq!(server.fetches, 3);
}

#[test]
fn truncation_ends_the_stream_with_a_warning() {
    let mut iterator = ResultIterator::new(10, 10);
    for i in 0..10 {
        assert_eq!(iterator.next_step(), IteratorStep::Row(i));
    }
    assert_eq!(iterator.next_step(), IteratorStep::Fetch);
    assert_eq!(iterator.on_fetch(1406, 4), FetchStatus::Truncated);
    for i in 0..4 {
        assert_eq!(iterator.next_step(), IteratorStep::Row(i));
    }
    assert_eq!(iterator.next_step(), IteratorStep::End);
    assert_eq!(iterator.next_step(), IteratorStep::End);
    assert!(iterator.is_finished());
}

#[test]
fn cursor_asks_for_a_fetch_only_after_a_full_batch() {
    let mut iterator = ResultIterator::new(3, 2);
    assert_eq!(iterator.prefetch_rows(), 3);
    assert!(!iterator.is_finished());
    assert_eq!(iterator.next_step(), IteratorStep::Row(0));
    assert_eq!(iterator.next_step(), IteratorStep::Row(1));
    assert_eq!(iterator.next_step(), IteratorStep::End);
    let mut iterator = ResultIterator::new(3, 3);
    assert_eq!(iterator.next_step(), IteratorStep::Row(0));
    assert_eq!(iterator.next_step(), IteratorStep::Row(1));
    assert_eq!(iterator.next_step(), IteratorStep::Row(2));
    assert_eq!(iterator.next_step(), IteratorStep::Fetch);
    // asking again changes nothing
    assert_eq!(iterator.next_step(), IteratorStep::Fetch);
    assert_eq!(iterator.on_fetch(0, 3), FetchStatus::Fetched);
    assert_eq!(iterator.next_step(), IteratorStep::Row(0));
}

#[test]
fn no_data_codes_end_the_stream_without_error() {
    for code in [100, 1403] {
        let mut iterator = ResultIterator::new(2, 2);
        assert_eq!(iterator.next_step(), IteratorStep::Row(0));
        assert_eq!(iterator.next_step(), IteratorStep::Row(1));
        assert_eq!(iterator.next_step(), IteratorStep::Fetch);
        assert_eq!(iterator.on_fetch(code, 0), FetchStatus::EndOfData);
        assert_eq!(iterator.next_step(), IteratorStep::End);
    }
}

#[test]
fn fetch_one_returns_the_row_of_select_one_from_dual() {
    let stmt: Statement<(), ()> = Statement::new(()).unwrap();
    let mut query: IntQuery = stmt.query_one(GeneralMetaProvider::new()).unwrap();
    assert_eq!(query.prefetch_rows, 1);
    let mut server = Levels::new(1);
    let (code, rows) = server.fetch(&mut query.results);
    assert_eq!((code, rows), (0, 1));
    assert_eq!(query.fetch_one(true, rows).unwrap(), 1);
}

#[test]
fn fetch_one_without_a_row_fails_with_its_label() {
    let stmt: Statement<(), ()> = Statement::new(()).unwrap();
    let mut query: IntQuery = stmt.query_one(GeneralMetaProvider::new()).unwrap();
    let mut server = Levels::new(0);
    let (code, rows) = server.fetch(&mut query.results);
    assert_eq!((code, rows), (100, 0));
    let error = query.fetch_one(false, rows).err().unwrap();
    assert_eq!(error.location, FETCH_ONE_LOCATION);
    assert_eq!(error.location, "fetch_one");
    assert_eq!(error.message, "The request returned no data");
    assert_eq!(error.errcode, -1);
}

#[test]
fn fetch_one_reads_a_date() {
    let stmt: Statement<(), ()> = Statement::new(()).unwrap();
    let mut query: Query<(), SqlDate, (), GeneralMetaProvider<SqlDate>> =
        stmt.query_one(GeneralMetaProvider::new()).unwrap();
    let defines = query.results.defines();
    assert_eq!((defines[0].dtype, defines[0].size), (12, 7));
    let mut image = query.results.buffer().clone();
    image[defines[0].value_offset..defines[0].value_offset + 7]
        .copy_from_slice(&[120, 124, 2, 29, 1, 1, 1]);
    image[defines[0].length_offset] = 7;
    assert!(query.results.replace_buffer(image));
    let date = query.fetch_one(true, 1).unwrap();
    assert_eq!((date.year, date.month, date.day), (2024, 2, 29));
}

/// Writes the rows of two text columns into the area of a pair query.
fn fill_pairs(area: &mut ResultProcessor, rows: &[(&str, &str)]) {
    let defines = area.defines();
    let mut image = vec![0u8; area.allocated_size()];
    for (r, (owner, table)) in rows.iter().enumerate() {
        for (c, text) in [owner, table].iter().enumerate() {
            let d = &defines[c];
            let at = d.value_offset + r * d.size;
            image[at..at + text.len()].copy_from_slice(text.as_bytes());
            image[d.length_offset + 2 * r..d.length_offset + 2 * r + 2]
                .copy_from_slice(&(text.len() as u16).to_le_bytes());
        }
    }
    assert!(area.replace_buffer(image));
}

type PairQuery = Query<(), (String, String), (), GeneralPairProvider<String, String>>;

fn fetch_pairs(query: &mut PairQuery, rows: &[(&str, &str)]) -> Vec<(String, String)> {
    query.bind(&());
    fill_pairs(&mut query.results, rows);
    let mut iterator = query.fetch_iter(false, rows.len() as u32);
    let mut list = Vec::new();
    let step = query.fetch_list(&mut iterator, &mut list).unwrap();
    assert_eq!(step, IteratorStep::End);
    list
}

#[test]
fn fetch_list_returns_the_rows_in_their_order() {
    let stmt: Statement<(), ()> = Statement::new(()).unwrap();
    let mut query: PairQuery = stmt.query(GeneralPairProvider::new()).unwrap();
    assert_eq!(query.prefetch_rows, 10);
    let rows = [("SYS", "ACCESS$"), ("SYS", "DUAL"), ("SYSTEM", "HELP")];
    let list = fetch_pairs(&mut query, &rows);
    assert_eq!(list.len(), 3);
    assert_eq!(
        list,
        vec![
            ("SYS".to_string(), "ACCESS$".to_string()),
            ("SYS".to_string(), "DUAL".to_string()),
            ("SYSTEM".to_string(), "HELP".to_string()),
        ]
    );
    let mut sorted = list.clone();
    sorted.sort();
    assert_eq!(sorted, list);
}

#[test]
fn fetch_list_twice_gives_equal_lists() {
    let stmt: Statement<(), ()> = Statement::new(()).unwrap();
    let mut query: PairQuery = stmt.query(GeneralPairProvider::new()).unwrap();
    let rows = [("A", "T1"), ("B", "T2")];
    let first = fetch_pairs(&mut query, &rows);
    let second = fetch_pairs(&mut query, &rows);
    assert_eq!(first, second);
    assert_eq!(first.len(), 2);
}

#[test]
fn fetch_list_of_an_empty_result_set_is_empty() {
    let stmt: Statement<(), ()> = Statement::new(()).unwrap();
    let mut query: PairQuery = stmt.query(GeneralPairProvider::new()).unwrap();
    let list = fetch_pairs(&mut query, &[]);
    assert!(list.is_empty());
}

#[test]
fn fetch_list_asks_for_a_fetch_after_a_full_batch() {
    let mut query = int_query(10);
    let mut server = Levels::new(13);
    query.bind(&());
    let (code, rows) = server.fetch(&mut query.results);
    let mut iterator = query.fetch_iter(code == 0, rows);
    let mut list = Vec::new();
    assert_eq!(query.fetch_list(&mut iterator, &mut list).unwrap(), IteratorStep::Fetch);
    assert_eq!(list, (1..=10).collect::<Vec<i32>>());
    let (code, rows) = server.fetch(&mut query.results);
    assert_eq!(iterator.on_fetch(code, rows), FetchStatus::EndOfData);
    assert_eq!(query.fetch_list(&mut iterator, &mut list).unwrap(), IteratorStep::End);
    assert_eq!(list, (1..=13).collect::<Vec<i32>>());
}

#[test]
fn a_row_that_its_provider_cannot_read_is_an_error() {
    let stmt: Statement<(), ()> = Statement::new(()).unwrap();
    let mut query: Query<(), SqlDateTime, (), GeneralMetaProvider<SqlDateTime>> =
        stmt.query_one(GeneralMetaProvider::new()).unwrap();
    // a date whose clock bytes are zero is no date-time
    let defines = query.results.defines();
    let mut image = query.results.buffer().clone();
    image[defines[0].value_offset..defines[0].value_offset + 7]
        .copy_from_slice(&[120, 124, 2, 29, 0, 0, 0]);
    assert!(query.results.replace_buffer(image));
    let error = query.read_row(0).err().unwrap();
    assert_eq!(error.location, GEN_RESULT_LOCATION);
    assert_eq!(error.location, "gen_result");
    assert_eq!(error.errcode, -1);
    let error = query.fetch_one(true, 0).err().unwrap();
    assert_eq!(error.location, GEN_RESULT_LOCATION);
}

#[test]
fn statement_with_parameters_writes_them_in_member_order() {
    let provider: GeneralPairProvider<i32, String> = GeneralPairProvider::new();
    let mut stmt: Statement<(i32, String), _> = Statement::new(provider).unwrap();
    let image = stmt.execute(&(7, "abc".to_string()));
    let bindings = stmt.params.bindings();
    assert_eq!(image.len(), stmt.params.allocated_size());
    assert_eq!(image.len(), 512);
    // first slot: the integer 7
    let b = &bindings[0];
    assert_eq!(&image[b.indicator_offset..b.indicator_offset + 2], &[0, 0]);
    assert_eq!(&image[b.length_offset..b.length_offset + 4], &[4, 0, 0, 0]);
    assert_eq!(&image[b.value_offset..b.value_offset + 4], &[7, 0, 0, 0]);
    // second slot: the text
    let b = &bindings[1];
    assert_eq!(&image[b.indicator_offset..b.indicator_offset + 2], &[0, 0]);
    assert_eq!(&image[b.length_offset..b.length_offset + 4], &[3, 0, 0, 0]);
    assert_eq!(&image[b.value_offset..b.value_offset + 3], b"abc");
    assert_eq!(image[b.value_offset + 3], 0);
    // the slots themselves
    let slots = stmt.params.projection();
    assert_eq!(slots.len(), 2);
    assert_eq!(slots[0].data(), &vec![7u8, 0, 0, 0]);
    assert_eq!(slots[1].length(), 3);
}

#[test]
fn parameter_area_is_rewritten_in_place() {
    let provider: GeneralPairProvider<i32, String> = GeneralPairProvider::new();
    let mut stmt: Statement<(i32, String), _> = Statement::new(provider).unwrap();
    stmt.set_params(&(1, "long text".to_string()));
    stmt.set_params(&(2, String::new()));
    let image = stmt.params.render();
    let bindings = stmt.params.bindings();
    let b = &bindings[0];
    assert_eq!(&image[b.value_offset..b.value_offset + 4], &[2, 0, 0, 0]);
    // the empty text is a NULL: its indicator is -1, the rest stays
    let b = &bindings[1];
    assert_eq!(&image[b.indicator_offset..b.indicator_offset + 2], &[0xff, 0xff]);
    assert_eq!(&image[b.value_offset..b.value_offset + 9], b"long text");
    assert_eq!(&image[b.length_offset..b.length_offset + 4], &[9, 0, 0, 0]);
}

#[test]
fn single_parameter_query_binds_its_value() {
    let stmt: Statement<i32, GeneralMetaProvider<i32>> =
        Statement::new(GeneralMetaProvider::new()).unwrap();
    let mut query: Query<i32, String, _, GeneralMetaProvider<String>> =
        stmt.query_one(GeneralMetaProvider::new()).unwrap();
    let image = query.bind(&42);
    let bindings = query.stmt.params.bindings();
    assert_eq!(&image[bindings[0].value_offset..bindings[0].value_offset + 4], &[42, 0, 0, 0]);
    // the row stored under the key
    let defines = query.results.defines();
    let mut area = query.results.buffer().clone();
    area[defines[0].value_offset..defines[0].value_offset + 5].copy_from_slice(b"hello");
    area[defines[0].length_offset] = 5;
    assert!(query.results.replace_buffer(area));
    assert_eq!(query.fetch_one(true, 1).unwrap(), "hello");
    // no such row
    assert_eq!(query.fetch_one(false, 0).err().unwrap().location, "fetch_one");
}

#[test]
fn providers_write_exactly_their_slots() {
    let provider: GeneralPairProvider<u16, bool> = GeneralPairProvider::new();
    let members: Vec<Member> = ParamsProvider::<(u16, bool)>::members(&provider);
    assert_eq!(members.len(), 2);
    assert!(members.iter().all(|m| matches!(m.identifier, Identifier::Unnamed)));
    let mut projection: ParamsProjection = members
        .iter()
        .map(|m| oracle::params::ParamValue::new(m.descriptor.size))
        .collect();
    provider.project_values(&(0x0102, true), &mut projection);
    assert_eq!(projection.len(), 2);
    assert_eq!(projection[0].data(), &vec![2u8, 1]);
    assert_eq!(projection[1].data(), &vec![1u8, 0]);
    assert_eq!(projection[0].size(), 2);
    assert_eq!(projection[1].size(), 2);
}

#[test]
fn query_constructors_set_the_rows_of_a_batch() {
    let stmt: Statement<(), ()> = Statement::new(()).unwrap();
    let q: IntQuery = stmt.query(GeneralMetaProvider::new()).unwrap();
    assert_eq!(q.prefetch_rows, 10);
    assert_eq!(q.results.prefetch_rows(), 10);
    let stmt: Statement<(), ()> = Statement::new(()).unwrap();
    let q: IntQuery = stmt.query_dynamic(GeneralMetaProvider::new(), 25).unwrap();
    assert_eq!(q.prefetch_rows, 25);
    let stmt: Statement<(), ()> = Statement::new(()).unwrap();
    let made: Result<IntQuery, _> = stmt.query_many(GeneralMetaProvider::new(), 0);
    assert!(made.is_err());
}

#[test]
fn fetch_one_takes_the_first_row_of_a_larger_batch() {
    let mut query = int_query(10);
    let mut server = Levels::new(3);
    query.bind(&());
    let (code, rows) = server.fetch(&mut query.results);
    assert_eq!((code, rows), (100, 3));
    assert_eq!(query.fetch_one(false, rows).unwrap(), 1);
    let mut query = int_query(10);
    let mut server = Levels::new(0);
    let (_, rows) = server.fetch(&mut query.results);
    assert_eq!(query.fetch_one(false, rows).err().unwrap().location, "fetch_one");
}

#[test]
fn stream_with_batches_of_one_row_fetches_row_by_row() {
    let mut query = int_query(1);
    let mut server = Levels::new(3);
    let (rows, error, _) = drain(&mut query, &mut server);
    assert_eq!(rows, vec![1, 2, 3]);
    assert_eq!(error, None);
    // three full batches and the fetch that finds no data
    assert_eq!(server.fetches, 4);
}
