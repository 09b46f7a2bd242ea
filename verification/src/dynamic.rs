//! Queries on one table whose columns and conditions are known only at
//! run time.

use vstd::prelude::*;
use vstd::string::*;
use crate::metainfo::{find_column, ColumnInfo, TableInfo};
use crate::text::{decimal_of, decimal_text, join, joined, text_views};
use crate::params::{
    projection_wf,
    Identifier,
    Member,
    ParamValue,
    ParamsProjection,
    ParamsProvider,
    ValueProjector,
};
use crate::results::{row_view, CellView, ResultSet, ResultsProvider};
use crate::types::{SqlType, TypeDescriptor};

verus! {

/// Whether a byte is a decimal digit.
pub open spec fn is_digit(byte: u8) -> bool {
    48 <= byte <= 57
}

/// Whether all the bytes are decimal digits.
pub open spec fn all_digits(bytes: Seq<u8>) -> bool {
    forall|i: int| 0 <= i < bytes.len() ==> is_digit(#[trigger] bytes[i])
}

/// The number that a run of decimal digits stands for.
pub open spec fn digits_value(bytes: Seq<u8>) -> int
    decreases bytes.len(),
{
    if bytes.len() == 0 {
        0
    } else {
        digits_value(bytes.drop_last()) * 10 + (bytes.last() - 48)
    }
}

/// The integer that a text stands for: an optional sign, then at least one
/// decimal digit and nothing else.
pub open spec fn integer_of(bytes: Seq<u8>) -> Option<int> {
    if bytes.len() == 0 {
        None
    } else {
        let negative = bytes[0] == 45;
        let digits = if negative || bytes[0] == 43 {
            bytes.subrange(1, bytes.len() as int)
        } else {
            bytes
        };
        if digits.len() == 0 || !all_digits(digits) {
            None
        } else if negative {
            Some(-digits_value(digits))
        } else {
            Some(digits_value(digits))
        }
    }
}

/// The integer that a text stands for, where it lies between the bounds.
pub open spec fn integer_within(bytes: Seq<u8>, low: int, high: int) -> Option<int> {
    match integer_of(bytes) {
        Some(value) => if low <= value <= high {
            Some(value)
        } else {
            None
        },
        None => None,
    }
}

/// Reads a decimal integer of at most 64 bits: an optional sign, then at
/// least one digit and nothing else.
pub fn parse_integer(text: &str) -> (value: Option<i64>)
    ensures
        value is Some <==> integer_within(
            text.spec_bytes(),
            i64::MIN as int,
            i64::MAX as int,
        ) is Some,
        value matches Some(number) ==> Some(number as int) == integer_of(text.spec_bytes()),
{
    let bytes = text.as_bytes();
    let n = bytes.len();
    if n == 0 {
        return None;
    }
    let negative = bytes[0] == 45;
    let start: usize = if negative || bytes[0] == 43 {
        1
    } else {
        0
    };
    if start == n {
        return None;
    }
    let ghost digits = bytes@.subrange(start as int, n as int);
    proof {
        if start == 0 {
            assert(digits =~= bytes@);
        }
        assert(digits.len() > 0);
    }
    let limit: i128 = 0x8000_0000_0000_0000;
    let mut acc: i128 = 0;
    let mut overflow = false;
    let mut i: usize = start;
    while i < n
        invariant
            start <= i <= n,
            n == bytes@.len(),
            bytes@ == text.spec_bytes(),
            n > 0,
            negative == (bytes@[0] == 45),
            start == (if negative || bytes@[0] == 43 {
                1int
            } else {
                0int
            }),
            start == 0 ==> digits == bytes@,
            digits.len() > 0,
            digits == bytes@.subrange(start as int, n as int),
            limit == 0x8000_0000_0000_0000,
            all_digits(digits.take(i - start)),
            0 <= acc <= limit,
            !overflow ==> acc == digits_value(digits.take(i - start)),
            overflow ==> digits_value(digits.take(i - start)) > limit,
        decreases n - i,
    {
        let b = bytes[i];
        if b < 48 || b > 57 {
            proof {
                assert(digits[i - start] == b);
                assert(!is_digit(digits[i - start]));
                assert(!all_digits(digits));
                assert(integer_of(bytes@) is None);
            }
            return None;
        }
        proof {
            let longer = digits.take(i - start + 1);
            assert(longer.drop_last() =~= digits.take(i - start));
            assert(longer.last() == b);
            assert forall|k: int| 0 <= k < longer.len() implies is_digit(#[trigger] longer[k]) by {
                if k < i - start {
                    assert(longer[k] == digits.take(i - start)[k]);
                }
            }
        }
        if !overflow {
            let next = acc * 10 + (b - 48) as i128;
            if next > limit {
                overflow = true;
            } else {
                acc = next;
            }
        }
        i = i + 1;
    }
    proof {
        assert(digits.take(n - start) =~= digits);
    }
    proof {
        assert(all_digits(digits));
        assert(integer_of(bytes@) == Some(
            if negative {
                -digits_value(digits)
            } else {
                digits_value(digits)
            },
        ));
    }
    if overflow {
        None
    } else if negative {
        Some((-acc) as i64)
    } else if acc == limit {
        None
    } else {
        Some(acc as i64)
    }
}

/// Rows of a page where the caller names no limit.
pub const DEFAULT_LIMIT: u16 = 25;

/// The most rows of a page.
pub const MAX_LIMIT: u16 = 100;

/// Error text for a column type that cannot stand in a condition.
pub const UNSUPPORTED_PARAMETER: &'static str = "Not supported type for Primary key";

/// Error text for a value that is no number of its column's type.
pub const MALFORMED_NUMBER: &'static str = "Can not parse number";

/// What a query needs to know of a column.
#[derive(Debug, Clone, Copy)]
pub struct ColTypeInfo {
    pub col_type: SqlType,
    pub oci_data_type: TypeDescriptor,
    pub nullable: bool,
}

/// What a query needs to know of the column of the catalogue.
pub open spec fn col_type_info_of(info: ColumnInfo) -> ColTypeInfo {
    ColTypeInfo { col_type: info.col_type, oci_data_type: info.oci_data_type, nullable: info.nullable }
}

impl ColTypeInfo {
    pub fn new(info: &ColumnInfo) -> (made: ColTypeInfo)
        ensures
            made == col_type_info_of(*info),
    {
        ColTypeInfo {
            col_type: info.col_type,
            oci_data_type: info.oci_data_type,
            nullable: info.nullable,
        }
    }
}

/// The value of a condition, read as its column's type.
#[derive(Debug)]
pub enum ParsedParameter {
    Int16(i16),
    Int32(i32),
    Int64(i64),
    Varchar(String),
}

/// Whether a text can be read as a value of the column type: any text as
/// character data, a decimal integer within the type's range as an integer.
/// Other types cannot stand in a condition.
pub open spec fn parameter_parses(tp: SqlType, text: Seq<char>) -> bool {
    let bytes = vstd::utf8::encode_utf8(text);
    match tp {
        SqlType::Int16 => integer_within(bytes, i16::MIN as int, i16::MAX as int) is Some,
        SqlType::Int32 => integer_within(bytes, i32::MIN as int, i32::MAX as int) is Some,
        SqlType::Int64 => integer_within(bytes, i64::MIN as int, i64::MAX as int) is Some,
        SqlType::Varchar => true,
        _ => false,
    }
}

/// Whether `parsed` is the text read as a value of the column type.
pub open spec fn parameter_is(tp: SqlType, text: Seq<char>, parsed: ParsedParameter) -> bool {
    let bytes = vstd::utf8::encode_utf8(text);
    match (tp, parsed) {
        (SqlType::Int16, ParsedParameter::Int16(v)) => Some(v as int) == integer_of(bytes),
        (SqlType::Int32, ParsedParameter::Int32(v)) => Some(v as int) == integer_of(bytes),
        (SqlType::Int64, ParsedParameter::Int64(v)) => Some(v as int) == integer_of(bytes),
        (SqlType::Varchar, ParsedParameter::Varchar(s)) => s@ == text,
        _ => false,
    }
}

impl ParsedParameter {
    /// Reads a text as a value of the column type. Fails exactly where the
    /// type cannot stand in a condition, or the text is no number of the
    /// type.
    pub fn parse(tp: SqlType, value: String) -> (parsed: Result<ParsedParameter, &'static str>)
        ensures
            parsed is Ok <==> parameter_parses(tp, value@),
            parsed matches Ok(parameter) ==> parameter_is(tp, value@, parameter),
            parsed matches Err(error) ==> error@ == (match tp {
                SqlType::Int16 | SqlType::Int32 | SqlType::Int64 => MALFORMED_NUMBER@,
                _ => UNSUPPORTED_PARAMETER@,
            }),
    {
        match tp {
            SqlType::Int16 => match parse_integer(value.as_str()) {
                Some(v) => if -32768 <= v && v <= 32767 {
                    Ok(ParsedParameter::Int16(v as i16))
                } else {
                    Err(MALFORMED_NUMBER)
                },
                None => Err(MALFORMED_NUMBER),
            },
            SqlType::Int32 => match parse_integer(value.as_str()) {
                Some(v) => if -2147483648 <= v && v <= 2147483647 {
                    Ok(ParsedParameter::Int32(v as i32))
                } else {
                    Err(MALFORMED_NUMBER)
                },
                None => Err(MALFORMED_NUMBER),
            },
            SqlType::Int64 => match parse_integer(value.as_str()) {
                Some(v) => Ok(ParsedParameter::Int64(v)),
                None => Err(MALFORMED_NUMBER),
            },
            SqlType::Varchar => Ok(ParsedParameter::Varchar(value)),
            _ => Err(UNSUPPORTED_PARAMETER),
        }
    }
}

/// A query on one table: the columns to read, the conditions with their
/// values, the order, and the page of rows to return.
pub struct DynamicQuery {
    pub table_name: String,
    pub columns: Vec<ColTypeInfo>,
    pub column_names: Vec<String>,
    pub param_columns: Vec<ColTypeInfo>,
    pub param_column_names: Vec<String>,
    pub parsed_params: Vec<ParsedParameter>,
    pub limit: u16,
    pub offset: Option<u16>,
    pub order_column_names: Vec<String>,
}

/// Whether the table has a column of the name.
pub open spec fn has_column(columns: Seq<ColumnInfo>, name: Seq<char>) -> bool {
    exists|i: int| 0 <= i < columns.len() && (#[trigger] columns[i]).name@ == name
}

/// Whether the column at the position is the first of the name.
pub open spec fn first_named(columns: Seq<ColumnInfo>, name: Seq<char>, position: int) -> bool {
    &&& 0 <= position < columns.len()
    &&& columns[position].name@ == name
    &&& forall|j: int| 0 <= j < position ==> (#[trigger] columns[j]).name@ != name
}

/// The position of the first column of the name.
pub open spec fn column_named(columns: Seq<ColumnInfo>, name: Seq<char>) -> int {
    choose|i: int| first_named(columns, name, i)
}

/// The type of the first column of the name.
pub open spec fn column_type_named(columns: Seq<ColumnInfo>, name: Seq<char>) -> SqlType {
    columns[column_named(columns, name)].col_type
}

/// Whether a condition can be made of a column name and a value: the
/// table has the column, and the value can be read as the column's type.
pub open spec fn condition_ok(columns: Seq<ColumnInfo>, name: Seq<char>, value: Seq<char>)
    -> bool {
    has_column(columns, name) && parameter_parses(column_type_named(columns, name), value)
}

/// The rows of a page: the limit that the caller names, or the default.
pub open spec fn page_limit(limit: Option<u16>) -> u16 {
    match limit {
        Some(l) => l,
        None => DEFAULT_LIMIT,
    }
}

/// Whether a page can be asked for: at most the largest limit, and an
/// offset that is a whole number of pages and not less than one page.
pub open spec fn page_ok(limit: Option<u16>, offset: Option<u16>) -> bool {
    let rows = page_limit(limit);
    &&& rows <= MAX_LIMIT
    &&& offset matches Some(o) ==> o >= rows && rows > 0 && o % rows == 0
}

/// The position of the first column of a name is the one that names the
/// column's type.
pub proof fn lemma_first_column(columns: Seq<ColumnInfo>, name: Seq<char>, found: int)
    requires
        first_named(columns, name, found),
    ensures
        has_column(columns, name),
        column_named(columns, name) == found,
        column_type_named(columns, name) == columns[found].col_type,
{
    let first = column_named(columns, name);
    assert(first_named(columns, name, first));
    if first < found {
        assert(columns[first].name@ != name);
    }
    if found < first {
        assert(columns[found].name@ != name);
    }
}

impl DynamicQuery {
    /// Makes a query on a table from conditions, each a column name with a
    /// value, an order and a page. Fails exactly where a condition names a
    /// column that the table lacks or gives a value that cannot be read as
    /// the column's type, where the order names a column that the table
    /// lacks, or where the page cannot be asked for.
    pub fn create_from_params(
        schema_name: &str,
        table_info: &TableInfo,
        parameters: Vec<(String, String)>,
        order: Vec<String>,
        limit: Option<u16>,
        offset: Option<u16>,
    ) -> (made: Result<DynamicQuery, String>)
        requires
            !(limit == Some(0u16) && offset is Some),
        ensures
            made is Ok <==> {
                &&& forall|i: int|
                    0 <= i < parameters@.len() ==> condition_ok(
                        table_info.columns@,
                        (#[trigger] parameters@[i]).0@,
                        parameters@[i].1@,
                    )
                &&& forall|i: int|
                    0 <= i < order@.len() ==> has_column(
                        table_info.columns@,
                        (#[trigger] order@[i])@,
                    )
                &&& page_ok(limit, offset)
            },
            made matches Ok(query) ==> {
                &&& query.table_name@ == schema_name@ + "."@ + table_info.name@
                &&& query.limit == page_limit(limit)
                &&& query.offset == offset
                &&& query.order_column_names@ == order@
                &&& query.columns@.len() == table_info.columns@.len()
                &&& query.column_names@.len() == table_info.columns@.len()
                &&& forall|i: int|
                    0 <= i < table_info.columns@.len() ==> (#[trigger] query.column_names@[i])@
                        == table_info.columns@[i].name@
                &&& forall|i: int|
                    0 <= i < table_info.columns@.len() ==> #[trigger] query.columns@[i]
                        == col_type_info_of(table_info.columns@[i])
                &&& query.param_columns@.len() == parameters@.len()
                &&& query.param_column_names@.len() == parameters@.len()
                &&& query.parsed_params@.len() == parameters@.len()
                &&& forall|i: int|
                    0 <= i < parameters@.len() ==> {
                        &&& (#[trigger] query.param_column_names@[i])@ == parameters@[i].0@
                        &&& first_named(
                            table_info.columns@,
                            parameters@[i].0@,
                            column_named(table_info.columns@, parameters@[i].0@),
                        )
                        &&& query.param_columns@[i] == col_type_info_of(
                            table_info.columns@[column_named(
                                table_info.columns@,
                                parameters@[i].0@,
                            )],
                        )
                        &&& parameter_is(
                            query.param_columns@[i].col_type,
                            parameters@[i].1@,
                            query.parsed_params@[i],
                        )
                    }
            },
    {
        let mut columns: Vec<ColTypeInfo> = Vec::new();
        let mut column_names: Vec<String> = Vec::new();
        let mut c: usize = 0;
        while c < table_info.columns.len()
            invariant
                c <= table_info.columns@.len(),
                columns@.len() == c,
                column_names@.len() == c,
                forall|i: int|
                    0 <= i < c ==> (#[trigger] column_names@[i])@ == table_info.columns@[i].name@,
                forall|i: int|
                    0 <= i < c ==> #[trigger] columns@[i] == col_type_info_of(
                        table_info.columns@[i],
                    ),
            decreases table_info.columns@.len() - c,
        {
            columns.push(ColTypeInfo::new(&table_info.columns[c]));
            column_names.push(table_info.columns[c].name.clone());
            c = c + 1;
        }
        let mut param_column_names: Vec<String> = Vec::new();
        let mut param_columns: Vec<ColTypeInfo> = Vec::new();
        let mut parsed_params: Vec<ParsedParameter> = Vec::new();
        let mut p: usize = 0;
        while p < parameters.len()
            invariant
                p <= parameters@.len(),
                param_columns@.len() == p,
                param_column_names@.len() == p,
                parsed_params@.len() == p,
                forall|i: int|
                    0 <= i < p ==> condition_ok(
                        table_info.columns@,
                        (#[trigger] parameters@[i]).0@,
                        parameters@[i].1@,
                    ),
                forall|i: int|
                    0 <= i < p ==> (#[trigger] param_column_names@[i])@ == parameters@[i].0@,
                forall|i: int|
                    0 <= i < p ==> first_named(
                        table_info.columns@,
                        parameters@[i].0@,
                        column_named(table_info.columns@, (#[trigger] parameters@[i]).0@),
                    ),
                forall|i: int|
                    0 <= i < p ==> #[trigger] param_columns@[i] == col_type_info_of(
                        table_info.columns@[column_named(
                            table_info.columns@,
                            parameters@[i].0@,
                        )],
                    ),
                forall|i: int|
                    0 <= i < p ==> parameter_is(
                        column_type_named(table_info.columns@, parameters@[i].0@),
                        parameters@[i].1@,
                        #[trigger] parsed_params@[i],
                    ),
            decreases parameters@.len() - p,
        {
            let col_name = &parameters[p].0;
            let value = &parameters[p].1;
            match find_column(&table_info.columns, col_name.as_str()) {
                None => {
                    let mut message = String::from_str("Not found column ");
                    message.append(col_name.as_str());
                    return Err(message);
                },
                Some(found) => {
                    let column = &table_info.columns[found];
                    proof {
                        lemma_first_column(table_info.columns@, col_name@, found as int);
                    }
                    match ParsedParameter::parse(column.col_type, value.clone()) {
                        Err(err) => {
                            let mut message = String::from_str("Can not parse parameter value ");
                            message.append(value.as_str());
                            message.append(" for column ");
                            message.append(col_name.as_str());
                            message.append(": ");
                            message.append(err);
                            return Err(message);
                        },
                        Ok(parsed) => {
                            parsed_params.push(parsed);
                            param_columns.push(ColTypeInfo::new(column));
                            param_column_names.push(col_name.clone());
                        },
                    }
                },
            }
            p = p + 1;
        }
        let mut table_name = String::from_str(schema_name);
        table_name.append(".");
        table_name.append(table_info.name.as_str());
        let mut o: usize = 0;
        while o < order.len()
            invariant
                o <= order@.len(),
                forall|i: int|
                    0 <= i < o ==> has_column(table_info.columns@, (#[trigger] order@[i])@),
            decreases order@.len() - o,
        {
            match find_column(&table_info.columns, order[o].as_str()) {
                None => {
                    let mut message = String::from_str("Order column ");
                    message.append(order[o].as_str());
                    message.append(" nof found in table ");
                    message.append(table_name.as_str());
                    return Err(message);
                },
                Some(_) => {},
            }
            o = o + 1;
        }
        let limit = match limit {
            Some(l) => l,
            None => DEFAULT_LIMIT,
        };
        if limit > MAX_LIMIT {
            return Err(String::from_str("limit rows must be <= 100"));
        }
        match offset {
            Some(offset) => {
                if offset < limit {
                    return Err(String::from_str("offset must be >= limit"));
                }
                if offset % limit > 0 {
                    return Err(
                        String::from_str(
                            "offset must be a multiple of the limit (remainder must be zero)",
                        ),
                    );
                }
            },
            None => {},
        }
        Ok(
            DynamicQuery {
                table_name,
                columns,
                column_names,
                param_columns,
                param_column_names,
                parsed_params,
                limit,
                offset,
                order_column_names: order,
            },
        )
    }
}

/// The condition on a column: the column equals the placeholder of the
/// given position.
pub open spec fn condition_text(name: Seq<char>, position: nat) -> Seq<char> {
    name + " = :"@ + decimal_of(position)
}

/// The conditions on the columns, with placeholders counted from one.
pub open spec fn conditions_of(names: Seq<Seq<char>>) -> Seq<Seq<char>> {
    Seq::new(names.len(), |i: int| condition_text(names[i], (i + 1) as nat))
}

/// The statement that selects the columns from the table under the
/// conditions.
pub open spec fn select_text(columns: Seq<Seq<char>>, table: Seq<char>, params: Seq<Seq<char>>)
    -> Seq<char> {
    "SELECT "@ + joined(columns, ","@) + " FROM "@ + table + " WHERE "@ + joined(
        conditions_of(params),
        " AND "@,
    )
}

/// The clause that orders the rows, where an order is asked for.
pub open spec fn order_clause(order: Seq<Seq<char>>) -> Seq<char> {
    if order.len() > 0 {
        " ORDER BY "@ + joined(order, ","@)
    } else {
        Seq::empty()
    }
}

/// The clause that picks the page, where more than one row is asked for.
pub open spec fn page_clause(limit: u16, offset: Option<u16>) -> Seq<char> {
    if limit > 1 {
        (match offset {
            Some(o) => " OFFSET "@ + decimal_of(o as nat) + " ROWS"@,
            None => Seq::empty(),
        }) + " FETCH NEXT "@ + decimal_of(limit as nat) + " ROWS ONLY"@
    } else {
        Seq::empty()
    }
}

impl DynamicQuery {
    /// Makes a query for the one row of a primary key from the values of
    /// the key's columns, in the key's order. Fails exactly where the table
    /// has no primary key, where the values are not as many as the key's
    /// columns, or where a value cannot be read as its column's type.
    pub fn create_from_pk(schema_name: &str, table_info: &TableInfo, pk_params: Vec<String>) -> (made:
        Result<DynamicQuery, String>)
        requires
            table_info.wf(),
        ensures
            made is Ok <==> {
                &&& table_info.primary_key matches Some(pk)
                &&& pk.column_indices@.len() == pk_params@.len()
                &&& forall|i: int|
                    0 <= i < pk_params@.len() ==> parameter_parses(
                        table_info.columns@[pk.column_indices@[i] as int].col_type,
                        (#[trigger] pk_params@[i])@,
                    )
            },
            made matches Ok(query) ==> {
                &&& query.table_name@ == schema_name@ + "."@ + table_info.name@
                &&& query.limit == 1
                &&& query.offset is None
                &&& query.order_column_names@.len() == 0
                &&& query.columns@.len() == table_info.columns@.len()
                &&& query.column_names@.len() == table_info.columns@.len()
                &&& forall|i: int|
                    0 <= i < table_info.columns@.len() ==> (#[trigger] query.column_names@[i])@
                        == table_info.columns@[i].name@
                &&& forall|i: int|
                    0 <= i < table_info.columns@.len() ==> #[trigger] query.columns@[i]
                        == col_type_info_of(table_info.columns@[i])
                &&& query.param_columns@.len() == pk_params@.len()
                &&& query.param_column_names@.len() == pk_params@.len()
                &&& query.parsed_params@.len() == pk_params@.len()
                &&& forall|i: int|
                    0 <= i < pk_params@.len() ==> {
                        let column = table_info.columns@[table_info.primary_key->Some_0.column_indices@[i] as int];
                        &&& (#[trigger] query.param_column_names@[i])@ == column.name@
                        &&& query.param_columns@[i] == col_type_info_of(column)
                        &&& parameter_is(column.col_type, pk_params@[i]@, query.parsed_params@[i])
                    }
            },
    {
        let pk = match &table_info.primary_key {
            None => {
                return Err(String::from_str("Primary key not exists"));
            },
            Some(pk) => pk,
        };
        if pk_params.len() != pk.column_indices.len() {
            return Err(
                String::from_str(
                    "Count of columns in primary key does not match with count of parameters in query",
                ),
            );
        }
        let mut columns: Vec<ColTypeInfo> = Vec::new();
        let mut column_names: Vec<String> = Vec::new();
        let mut c: usize = 0;
        while c < table_info.columns.len()
            invariant
                c <= table_info.columns@.len(),
                columns@.len() == c,
                column_names@.len() == c,
                forall|i: int|
                    0 <= i < c ==> (#[trigger] column_names@[i])@ == table_info.columns@[i].name@,
                forall|i: int|
                    0 <= i < c ==> #[trigger] columns@[i] == col_type_info_of(
                        table_info.columns@[i],
                    ),
            decreases table_info.columns@.len() - c,
        {
            columns.push(ColTypeInfo::new(&table_info.columns[c]));
            column_names.push(table_info.columns[c].name.clone());
            c = c + 1;
        }
        let mut param_column_names: Vec<String> = Vec::new();
        let mut param_columns: Vec<ColTypeInfo> = Vec::new();
        let mut parsed_params: Vec<ParsedParameter> = Vec::new();
        let mut p: usize = 0;
        while p < pk_params.len()
            invariant
                table_info.wf(),
                table_info.primary_key == Some(*pk),
                pk.column_indices@.len() == pk_params@.len(),
                p <= pk_params@.len(),
                param_columns@.len() == p,
                param_column_names@.len() == p,
                parsed_params@.len() == p,
                forall|i: int|
                    0 <= i < p ==> parameter_parses(
                        table_info.columns@[pk.column_indices@[i] as int].col_type,
                        (#[trigger] pk_params@[i])@,
                    ),
                forall|i: int|
                    0 <= i < p ==> (#[trigger] param_column_names@[i])@
                        == table_info.columns@[pk.column_indices@[i] as int].name@,
                forall|i: int|
                    0 <= i < p ==> #[trigger] param_columns@[i] == col_type_info_of(
                        table_info.columns@[pk.column_indices@[i] as int],
                    ),
                forall|i: int|
                    0 <= i < p ==> parameter_is(
                        table_info.columns@[pk.column_indices@[i] as int].col_type,
                        pk_params@[i]@,
                        #[trigger] parsed_params@[i],
                    ),
            decreases pk_params@.len() - p,
        {
            let pk_column_index = pk.column_indices[p];
            assert(pk.column_indices@[p as int] < table_info.columns@.len());
            let pk_column = &table_info.columns[pk_column_index];
            let value = &pk_params[p];
            match ParsedParameter::parse(pk_column.col_type, value.clone()) {
                Err(err) => {
                    let mut message = String::from_str("Can not parse parameter value ");
                    message.append(value.as_str());
                    message.append(" for column ");
                    message.append(pk_column.name.as_str());
                    message.append(": ");
                    message.append(err);
                    return Err(message);
                },
                Ok(parsed) => {
                    parsed_params.push(parsed);
                    param_columns.push(ColTypeInfo::new(pk_column));
                    param_column_names.push(pk_column.name.clone());
                },
            }
            p = p + 1;
        }
        let mut table_name = String::from_str(schema_name);
        table_name.append(".");
        table_name.append(table_info.name.as_str());
        Ok(
            DynamicQuery {
                table_name,
                columns,
                column_names,
                param_columns,
                param_column_names,
                parsed_params,
                limit: 1,
                offset: None,
                order_column_names: Vec::new(),
            },
        )
    }

    /// The statement that selects the rows, without order and page.
    pub fn generate_sql(&self) -> (sql: String)
        ensures
            sql@ == select_text(
                text_views(self.column_names@),
                self.table_name@,
                text_views(self.param_column_names@),
            ),
    {
        let joined_result_columns = join(&self.column_names, ",");
        let mut conditions: Vec<String> = Vec::new();
        let mut i: usize = 0;
        while i < self.param_column_names.len()
            invariant
                i <= self.param_column_names@.len(),
                conditions@.len() == i,
                forall|k: int|
                    0 <= k < i ==> (#[trigger] conditions@[k])@ == condition_text(
                        self.param_column_names@[k]@,
                        (k + 1) as nat,
                    ),
            decreases self.param_column_names@.len() - i,
        {
            let mut condition = self.param_column_names[i].clone();
            condition.append(" = :");
            let position = decimal_text((i + 1) as u64);
            condition.append(position.as_str());
            conditions.push(condition);
            i = i + 1;
        }
        proof {
            assert(text_views(conditions@) =~= conditions_of(text_views(self.param_column_names@)));
        }
        let joined_param_columns = join(&conditions, " AND ");
        let mut sql = String::from_str("SELECT ");
        sql.append(joined_result_columns.as_str());
        sql.append(" FROM ");
        sql.append(self.table_name.as_str());
        sql.append(" WHERE ");
        sql.append(joined_param_columns.as_str());
        sql
    }

    /// The statement that selects the rows in the order and of the page
    /// that the query asks for.
    pub fn statement_text(&self) -> (sql: String)
        ensures
            sql@ == select_text(
                text_views(self.column_names@),
                self.table_name@,
                text_views(self.param_column_names@),
            ) + order_clause(text_views(self.order_column_names@)) + page_clause(
                self.limit,
                self.offset,
            ),
    {
        let mut sql = self.generate_sql();
        let ghost select = sql@;
        if self.order_column_names.len() > 0 {
            let joined_order_columns = join(&self.order_column_names, ",");
            let mut clause = String::from_str(" ORDER BY ");
            clause.append(joined_order_columns.as_str());
            sql.append(clause.as_str());
        }
        proof {
            assert(sql@ =~= select + order_clause(text_views(self.order_column_names@)));
        }
        let ghost ordered = sql@;
        if self.limit > 1 {
            let mut clause = String::new();
            match self.offset {
                Some(offset) => {
                    clause.append(" OFFSET ");
                    clause.append(decimal_text(offset as u64).as_str());
                    clause.append(" ROWS");
                },
                None => {},
            }
            clause.append(" FETCH NEXT ");
            clause.append(decimal_text(self.limit as u64).as_str());
            clause.append(" ROWS ONLY");
            proof {
                assert(clause@ =~= page_clause(self.limit, self.offset));
            }
            sql.append(clause.as_str());
        }
        proof {
            assert(sql@ =~= ordered + page_clause(self.limit, self.offset));
        }
        sql
    }

    /// The answer to a query for one row: the row, or an empty object where
    /// there is none.
    pub fn fetch_one(row: Option<String>) -> (answer: String)
        ensures
            answer@ == (match row {
                Some(r) => r@,
                None => "{}"@,
            }),
    {
        match row {
            Some(r) => r,
            None => String::from_str("{}"),
        }
    }

    /// The answer to a query for many rows: the rows in a list.
    pub fn fetch_many(rows: &Vec<String>) -> (answer: String)
        ensures
            answer@ == "["@ + joined(text_views(rows@), ","@) + "]"@,
    {
        let mut answer = String::from_str("[");
        answer.append(join(rows, ",").as_str());
        answer.append("]");
        answer
    }
}

impl ValueProjector<ParsedParameter> for ParsedParameter {
    open spec fn encoding(&self) -> Option<Seq<u8>> {
        match self {
            ParsedParameter::Int16(v) => v.encoding(),
            ParsedParameter::Int32(v) => v.encoding(),
            ParsedParameter::Int64(v) => v.encoding(),
            ParsedParameter::Varchar(v) => v.encoding(),
        }
    }

    fn project_value(&self, projection: &mut ParamValue) {
        match self {
            ParsedParameter::Int16(v) => v.project_value(projection),
            ParsedParameter::Int32(v) => v.project_value(projection),
            ParsedParameter::Int64(v) => v.project_value(projection),
            ParsedParameter::Varchar(v) => v.project_value(projection),
        }
    }
}

/// Provider for the conditions of a dynamic query: one unnamed member per
/// condition, with the descriptor of the condition's column.
pub struct DynamicParamsProvider {
    pub columns: Vec<ColTypeInfo>,
}

impl ParamsProvider<Vec<ParsedParameter>> for DynamicParamsProvider {
    open spec fn member_list(&self) -> Seq<Member> {
        Seq::new(
            self.columns@.len(),
            |i: int|
                Member {
                    descriptor: self.columns@[i].oci_data_type,
                    identifier: Identifier::Unnamed,
                },
        )
    }

    /// Each slot receives the value of its position; a slot without a
    /// value receives a NULL.
    open spec fn encodings(&self, params: &Vec<ParsedParameter>) -> Seq<Option<Seq<u8>>> {
        Seq::new(
            self.columns@.len(),
            |i: int|
                if i < params@.len() {
                    params@[i].encoding()
                } else {
                    None
                },
        )
    }

    fn members(&self) -> (members: Vec<Member>) {
        let mut members: Vec<Member> = Vec::new();
        let mut i: usize = 0;
        while i < self.columns.len()
            invariant
                i <= self.columns@.len(),
                members@.len() == i,
                forall|k: int|
                    0 <= k < i ==> #[trigger] members@[k] == (Member {
                        descriptor: self.columns@[k].oci_data_type,
                        identifier: Identifier::Unnamed,
                    }),
            decreases self.columns@.len() - i,
        {
            members.push(Member::new(self.columns[i].oci_data_type, Identifier::Unnamed));
            i = i + 1;
        }
        assert(members@ =~= self.member_list());
        members
    }

    fn project_values(&self, params: &Vec<ParsedParameter>, projection: &mut ParamsProjection) {
        let ghost before = projection@;
        let ghost encodings = self.encodings(params);
        let count = projection.len();
        let mut i: usize = 0;
        while i < count
            invariant
                i <= count,
                count == before.len(),
                before.len() == self.columns@.len(),
                encodings == self.encodings(params),
                projection@.len() == before.len(),
                projection_wf(before),
                forall|k: int| 0 <= k < i ==> (#[trigger] projection@[k])@.wf(),
                forall|k: int|
                    0 <= k < i ==> (#[trigger] projection@[k])@ == before[k]@.store_value(
                        encodings[k],
                    ),
                forall|k: int| i <= k < count ==> #[trigger] projection@[k] == before[k],
            decreases count - i,
        {
            let ghost at_start = projection@;
            if i < params.len() {
                let slot = &mut projection[i];
                params[i].project_value(slot);
            } else {
                let slot = &mut projection[i];
                slot.project_null();
            }
            proof {
                assert(projection@[i as int]@ == before[i as int]@.store_value(
                    encodings[i as int],
                ));
                assert forall|k: int| 0 <= k < i + 1 implies (#[trigger] projection@[k])@.wf() by {
                    if k < i {
                        assert(projection@[k] == at_start[k]);
                    }
                }
                assert forall|k: int| 0 <= k < i + 1 implies (#[trigger] projection@[k])@
                    == before[k]@.store_value(encodings[k]) by {
                    if k < i {
                        assert(projection@[k] == at_start[k]);
                    }
                }
                assert forall|k: int| i + 1 <= k < count implies #[trigger] projection@[k]
                    == before[k] by {
                    assert(projection@[k] == at_start[k]);
                }
            }
            i = i + 1;
        }
    }
}

/// Provider for the rows of a dynamic query: one column per column of the
/// table, with the column's descriptor. A row is handed on as its cells.
pub struct DynamicResultsProvider {
    pub column_names: Vec<String>,
    pub columns: Vec<ColTypeInfo>,
}

impl ResultsProvider<ResultSet> for DynamicResultsProvider {
    open spec fn descriptor_list(&self) -> Seq<TypeDescriptor> {
        Seq::new(self.columns@.len(), |i: int| self.columns@[i].oci_data_type)
    }

    open spec fn decodable(&self, row: Seq<CellView>) -> bool {
        row.len() == self.columns@.len()
    }

    open spec fn decodes(&self, row: Seq<CellView>, result: ResultSet) -> bool {
        row_view(result@) == row
    }

    fn sql_descriptors(&self) -> (descriptors: Vec<TypeDescriptor>) {
        let mut descriptors: Vec<TypeDescriptor> = Vec::new();
        let mut i: usize = 0;
        while i < self.columns.len()
            invariant
                i <= self.columns@.len(),
                descriptors@.len() == i,
                forall|k: int|
                    0 <= k < i ==> #[trigger] descriptors@[k] == self.columns@[k].oci_data_type,
            decreases self.columns@.len() - i,
        {
            descriptors.push(self.columns[i].oci_data_type);
            i = i + 1;
        }
        assert(descriptors@ =~= self.descriptor_list());
        descriptors
    }

    fn accepts(&self, rs: &ResultSet) -> (ok: bool) {
        rs.len() == self.columns.len()
    }

    fn gen_result(&self, rs: ResultSet) -> (result: ResultSet) {
        rs
    }
}

impl DynamicQuery {
    /// The statement text with the providers and the values that the query
    /// is prepared and run with.
    pub fn prepare_query(self) -> (prepared: (
        String,
        DynamicParamsProvider,
        DynamicResultsProvider,
        Vec<ParsedParameter>,
    ))
        ensures
            prepared.0@ == select_text(
                text_views(self.column_names@),
                self.table_name@,
                text_views(self.param_column_names@),
            ) + order_clause(text_views(self.order_column_names@)) + page_clause(
                self.limit,
                self.offset,
            ),
            prepared.1.columns == self.param_columns,
            prepared.2.columns == self.columns,
            prepared.2.column_names == self.column_names,
            prepared.3 == self.parsed_params,
    {
        let sql = self.statement_text();
        (
            sql,
            DynamicParamsProvider { columns: self.param_columns },
            DynamicResultsProvider { column_names: self.column_names, columns: self.columns },
            self.parsed_params,
        )
    }
}

} // verus!
