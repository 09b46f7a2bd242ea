use oracle::dynamic::{
    ColTypeInfo, DynamicParamsProvider, DynamicQuery, DynamicResultsProvider, ParsedParameter,
};
use oracle::metainfo::{ColumnInfo, OraTableColumn, PrimaryKey, TableInfo};
use oracle::params::{Identifier, ParamValue, ParamsProvider, ValueProjector};
use oracle::results::{FromResultValue, ResultValue, ResultsProvider};
use oracle::rows::{
    OraTableColumnProvider, OraTableIndexColumnProvider, OraTablePrimaryKeyColumnProvider,
    OraTableProvider,
};
use oracle::statement::{Query, Statement};
use oracle::text::{decimal_text, integer_to_text};
use oracle::types::{SqlFloat, SqlType, TypeDescriptor, TypeDescriptorProducer};

fn info(name: &str, data_type: &str, len: u16, prec: u16) -> ColumnInfo {
    ColumnInfo::try_from(OraTableColumn {
        owner: "HR".to_string(),
        table_name: "EMP".to_string(),
        column_name: name.to_string(),
        data_type: data_type.to_string(),
        data_length: len,
        data_precision: prec,
        data_scale: 0,
        nullable: "Y".to_string(),
    })
    .unwrap()
}

fn emp_with_key(indices: Vec<usize>) -> TableInfo {
    TableInfo {
        name: "emp".to_string(),
        is_view: false,
        temporary: false,
        num_rows: 14,
        columns: vec![info("ID", "NUMBER", 22, 6), info("CODE", "CHAR", 3, 0), info("HIRED", "DATE", 7, 0)],
        primary_key: Some(PrimaryKey { name: "EMP_PK".to_string(), column_indices: indices }),
        indexes: Vec::new(),
    }
}

#[test]
fn decimal_text_has_no_leading_zeros() {
    assert_eq!(decimal_text(0), "0");
    assert_eq!(decimal_text(7), "7");
    assert_eq!(decimal_text(10), "10");
    assert_eq!(decimal_text(1234567890), "1234567890");
    assert_eq!(decimal_text(u64::MAX), "18446744073709551615");
}

#[test]
fn integer_text_carries_the_sign() {
    assert_eq!(integer_to_text(0), "0");
    assert_eq!(integer_to_text(-1), "-1");
    assert_eq!(integer_to_text(42), "42");
    assert_eq!(integer_to_text(i64::MIN), "-9223372036854775808");
    assert_eq!(integer_to_text(i64::MAX), "9223372036854775807");
}

#[test]
fn query_by_primary_key_asks_for_one_row() {
    let table = emp_with_key(vec![0, 1]);
    let q = DynamicQuery::create_from_pk("hr", &table, vec!["42".to_string(), "abc".to_string()]).unwrap();
    assert_eq!(q.table_name, "hr.emp");
    assert_eq!(q.limit, 1);
    assert_eq!(q.offset, None);
    assert!(q.order_column_names.is_empty());
    assert_eq!(q.param_column_names, vec!["id", "code"]);
    assert_eq!(q.param_columns[0].col_type, SqlType::Int32);
    assert_eq!(q.param_columns[1].oci_data_type, TypeDescriptor::new(1, 5));
    assert!(matches!(q.parsed_params[0], ParsedParameter::Int32(42)));
    assert_eq!(q.column_names, vec!["id", "code", "hired"]);
    assert_eq!(q.generate_sql(), "SELECT id,code,hired FROM hr.emp WHERE id = :1 AND code = :2");
    assert_eq!(q.statement_text(), "SELECT id,code,hired FROM hr.emp WHERE id = :1 AND code = :2");
}

#[test]
fn query_by_primary_key_refuses_what_does_not_fit_the_key() {
    let mut table = emp_with_key(vec![0]);
    let made = DynamicQuery::create_from_pk("hr", &table, vec!["1".to_string(), "2".to_string()]);
    assert_eq!(
        made.err().unwrap(),
        "Count of columns in primary key does not match with count of parameters in query"
    );
    let made = DynamicQuery::create_from_pk("hr", &table, vec!["x".to_string()]);
    assert_eq!(made.err().unwrap(), "Can not parse parameter value x for column id: Can not parse number");
    table.primary_key = None;
    let made = DynamicQuery::create_from_pk("hr", &table, vec!["1".to_string()]);
    assert_eq!(made.err().unwrap(), "Primary key not exists");
}

fn page_query(order: Vec<String>, limit: Option<u16>, offset: Option<u16>) -> DynamicQuery {
    let table = emp_with_key(vec![0]);
    let conditions = vec![("code".to_string(), "abc".to_string()), ("id".to_string(), "7".to_string())];
    DynamicQuery::create_from_params("hr", &table, conditions, order, limit, offset).unwrap()
}

#[test]
fn statement_numbers_its_placeholders_from_one() {
    let q = page_query(Vec::new(), Some(1), None);
    assert_eq!(q.generate_sql(), "SELECT id,code,hired FROM hr.emp WHERE code = :1 AND id = :2");
    assert_eq!(q.statement_text(), q.generate_sql());
}

#[test]
fn statement_adds_order_and_page() {
    let q = page_query(vec!["code".to_string(), "id".to_string()], None, None);
    assert_eq!(
        q.statement_text(),
        "SELECT id,code,hired FROM hr.emp WHERE code = :1 AND id = :2 ORDER BY code,id FETCH NEXT 25 ROWS ONLY"
    );
    let q = page_query(Vec::new(), Some(10), Some(30));
    assert_eq!(
        q.statement_text(),
        "SELECT id,code,hired FROM hr.emp WHERE code = :1 AND id = :2 OFFSET 30 ROWS FETCH NEXT 10 ROWS ONLY"
    );
    let q = page_query(vec!["id".to_string()], Some(1), Some(5));
    assert_eq!(
        q.statement_text(),
        "SELECT id,code,hired FROM hr.emp WHERE code = :1 AND id = :2 ORDER BY id"
    );
}

#[test]
fn statement_without_conditions_keeps_the_where_clause_open() {
    let table = emp_with_key(vec![0]);
    let q = DynamicQuery::create_from_params("hr", &table, Vec::new(), Vec::new(), Some(1), None).unwrap();
    assert_eq!(q.generate_sql(), "SELECT id,code,hired FROM hr.emp WHERE ");
}

#[test]
fn answers_are_an_object_or_a_list() {
    assert_eq!(DynamicQuery::fetch_one(None), "{}");
    assert_eq!(DynamicQuery::fetch_one(Some("{ \"id\":1 }".to_string())), "{ \"id\":1 }");
    assert_eq!(DynamicQuery::fetch_many(&Vec::new()), "[]");
    assert_eq!(DynamicQuery::fetch_many(&vec!["{}".to_string()]), "[{}]");
    assert_eq!(DynamicQuery::fetch_many(&vec!["{a}".to_string(), "{b}".to_string()]), "[{a},{b}]");
}

#[test]
fn parsed_parameters_are_written_like_their_values() {
    let mut slot = ParamValue::new(8);
    ParsedParameter::Int64(-2).project_value(&mut slot);
    assert_eq!(slot.data(), &(-2i64).to_le_bytes().to_vec());
    assert_eq!(slot.length(), 8);
    let mut slot = ParamValue::new(2);
    ParsedParameter::Int16(258).project_value(&mut slot);
    assert_eq!(slot.data(), &vec![2u8, 1]);
    let mut slot = ParamValue::new(4);
    ParsedParameter::Int32(1).project_value(&mut slot);
    assert_eq!(slot.data(), &vec![1u8, 0, 0, 0]);
    let mut slot = ParamValue::new(5);
    ParsedParameter::Varchar("abc".to_string()).project_value(&mut slot);
    assert_eq!(&slot.data()[..3], b"abc");
    assert_eq!(slot.length(), 3);
}

#[test]
fn dynamic_providers_follow_the_columns_of_the_query() {
    let q = page_query(Vec::new(), None, None);
    let (sql, params_provider, results_provider, values) = q.prepare_query();
    assert!(sql.starts_with("SELECT id,code,hired FROM hr.emp WHERE code = :1 AND id = :2"));
    let members = params_provider.members();
    assert_eq!(members.len(), 2);
    assert_eq!(members[0].descriptor, TypeDescriptor::new(1, 5));
    assert_eq!(members[1].descriptor, TypeDescriptor::new(3, 4));
    assert!(members.iter().all(|m| matches!(m.identifier, Identifier::Unnamed)));
    assert_eq!(
        results_provider.sql_descriptors(),
        vec![TypeDescriptor::new(3, 4), TypeDescriptor::new(1, 5), TypeDescriptor::new(12, 7)]
    );
    assert_eq!(results_provider.column_names, vec!["id", "code", "hired"]);
    assert_eq!(values.len(), 2);

    let mut statement: Statement<Vec<ParsedParameter>, DynamicParamsProvider> =
        Statement::new(params_provider).unwrap();
    let image = statement.execute(&values);
    let bindings = statement.params.bindings();
    assert_eq!(&image[bindings[0].value_offset..bindings[0].value_offset + 3], b"abc");
    assert_eq!(&image[bindings[1].value_offset..bindings[1].value_offset + 4], &[7, 0, 0, 0]);

    let query: Query<_, Vec<ResultValue>, _, DynamicResultsProvider> =
        statement.query_dynamic(results_provider, 25).unwrap();
    let row = query.read_row(3).unwrap();
    assert_eq!(row.len(), 3);
    assert_eq!(i32::from_result(&row[0]), 0);
}

#[test]
fn dynamic_parameters_without_a_value_are_bound_as_null() {
    let provider = DynamicParamsProvider {
        columns: vec![
            ColTypeInfo { col_type: SqlType::Int32, oci_data_type: TypeDescriptor::new(3, 4), nullable: true },
            ColTypeInfo { col_type: SqlType::Int32, oci_data_type: TypeDescriptor::new(3, 4), nullable: true },
        ],
    };
    let mut projection = vec![ParamValue::new(4), ParamValue::new(4)];
    provider.project_values(&vec![ParsedParameter::Int32(9)], &mut projection);
    assert_eq!(projection[0].data(), &vec![9u8, 0, 0, 0]);
    assert!(!projection[0].is_null());
    assert!(projection[1].is_null());
}

#[test]
fn dynamic_rows_are_accepted_by_their_width() {
    let provider = DynamicResultsProvider {
        column_names: vec!["a".to_string()],
        columns: vec![ColTypeInfo { col_type: SqlType::Int16, oci_data_type: TypeDescriptor::new(3, 2), nullable: false }],
    };
    assert!(provider.accepts(&vec![ResultValue::Nil]));
    assert!(!provider.accepts(&vec![ResultValue::Nil, ResultValue::Nil]));
    assert!(!provider.accepts(&Vec::new()));
    let row = provider.gen_result(vec![ResultValue::Val { data: vec![5, 0], len: 2 }]);
    assert_eq!(i16::from_result(&row[0]), 5);
}

fn text(value: &str, size: usize) -> ResultValue {
    let mut data = value.as_bytes().to_vec();
    data.resize(size, 0);
    ResultValue::Val { data, len: value.len() as u16 }
}

#[test]
fn table_rows_are_read_field_by_field() {
    let provider = OraTableProvider;
    assert_eq!(
        provider.sql_descriptors(),
        vec![
            TypeDescriptor::new(1, 130),
            TypeDescriptor::new(1, 130),
            TypeDescriptor::new(1, 10),
            TypeDescriptor::new(3, 4),
            TypeDescriptor::new(1, 4),
        ]
    );
    let row = vec![
        text("HR", 130),
        text("EMP", 130),
        text("TABLE", 10),
        ResultValue::Val { data: vec![14, 0, 0, 0], len: 4 },
        text("N", 4),
    ];
    assert!(provider.accepts(&row));
    let table = provider.gen_result(row);
    assert_eq!((table.owner.as_str(), table.table_name.as_str()), ("HR", "EMP"));
    assert_eq!((table.table_type.as_str(), table.num_rows, table.temporary.as_str()), ("TABLE", 14, "N"));
    assert!(!provider.accepts(&vec![text("HR", 130)]));
    let short = vec![
        text("HR", 130),
        text("EMP", 130),
        text("TABLE", 10),
        ResultValue::Val { data: vec![14, 0], len: 2 },
        text("N", 4),
    ];
    assert!(!provider.accepts(&short));
}

#[test]
fn column_rows_are_read_field_by_field() {
    let provider = OraTableColumnProvider;
    let descriptors = provider.sql_descriptors();
    assert_eq!(descriptors.len(), 8);
    assert_eq!(descriptors[4], TypeDescriptor::new(3, 2));
    assert_eq!(descriptors[7], TypeDescriptor::new(1, 4));
    let row = vec![
        text("HR", 130),
        text("EMP", 130),
        text("ID", 130),
        text("NUMBER", 130),
        ResultValue::Val { data: vec![22, 0], len: 2 },
        ResultValue::Val { data: vec![6, 0], len: 2 },
        ResultValue::Nil,
        text("N", 4),
    ];
    assert!(provider.accepts(&row));
    let column = provider.gen_result(row);
    assert_eq!(column.column_name, "ID");
    assert_eq!(column.data_type, "NUMBER");
    assert_eq!((column.data_length, column.data_precision, column.data_scale), (22, 6, 0));
    assert_eq!(column.nullable, "N");
}

#[test]
fn key_and_index_rows_are_read_field_by_field() {
    let provider = OraTablePrimaryKeyColumnProvider;
    assert_eq!(provider.sql_descriptors(), vec![TypeDescriptor::new(1, 130); 4]);
    let key = provider.gen_result(vec![text("HR", 130), text("EMP", 130), text("EMP_PK", 130), text("ID", 130)]);
    assert_eq!((key.constraint_name.as_str(), key.column_name.as_str()), ("EMP_PK", "ID"));

    let provider = OraTableIndexColumnProvider;
    let descriptors = provider.sql_descriptors();
    assert_eq!(descriptors.len(), 6);
    assert_eq!(descriptors[3], TypeDescriptor::new(1, 12));
    assert_eq!(descriptors[5], TypeDescriptor::new(1, 6));
    let row = vec![
        text("HR", 130),
        text("EMP", 130),
        text("EMP_IX", 130),
        text("UNIQUE", 12),
        text("ID", 130),
        ResultValue::Nil,
    ];
    assert!(provider.accepts(&row));
    let index = provider.gen_result(row);
    assert_eq!((index.index_name.as_str(), index.uniqueness.as_str()), ("EMP_IX", "UNIQUE"));
    assert_eq!(index.descend, "");
}

#[test]
fn floats_travel_as_their_bits() {
    assert_eq!(<SqlFloat as TypeDescriptorProducer<SqlFloat>>::produce(), TypeDescriptor::new(4, 8));
    let value = SqlFloat { bits: 1.5f64.to_bits() };
    let mut slot = ParamValue::new(8);
    value.project_value(&mut slot);
    assert_eq!(slot.data(), &1.5f64.to_le_bytes().to_vec());
    assert_eq!(slot.length(), 8);
    let cell = ResultValue::Val { data: slot.data().clone(), len: 8 };
    assert_eq!(f64::from_bits(SqlFloat::from_result(&cell).bits), 1.5);
    assert_eq!(<Option<SqlFloat>>::from_result(&cell), Some(value));
    assert_eq!(<Option<SqlFloat>>::from_result(&ResultValue::Nil), None);
    assert_eq!(f64::from_bits(SqlFloat::from_result(&ResultValue::Nil).bits), 0.0);
    assert!(!SqlFloat::can_read(&ResultValue::Val { data: vec![0; 7], len: 7 }));
}
