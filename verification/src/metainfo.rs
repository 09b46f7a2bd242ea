//! The catalogue of schemas, tables, columns, primary keys and indexes,
//! as it is built from the rows of the data dictionary.

use vstd::prelude::*;
use vstd::string::*;
use crate::dynamic::{column_named, first_named, has_column, lemma_first_column};
use crate::memory::{lemma_offset_of_step, offset_of, total_size};
use crate::text::{join, joined, lowercase, same_text, text_views, to_lowercase};
use itertools::Itertools;
use crate::types::{
    sql_type_descriptor,
    string_descriptor,
    string_sqltype,
    SqlType,
    TypeDescriptor,
};

verus! {

/// One table or view, as the data dictionary lists it.
#[derive(Debug)]
pub struct OraTable {
    pub owner: String,
    pub table_name: String,
    pub table_type: String,
    pub num_rows: i32,
    pub temporary: String,
}

/// One column of a table, as the data dictionary lists it.
#[derive(Debug)]
pub struct OraTableColumn {
    pub owner: String,
    pub table_name: String,
    pub column_name: String,
    pub data_type: String,
    pub data_length: u16,
    pub data_precision: u16,
    pub data_scale: u16,
    pub nullable: String,
}

/// One column of a primary key, as the data dictionary lists it.
#[derive(Debug)]
pub struct OraTablePrimaryKeyColumn {
    pub owner: String,
    pub table_name: String,
    pub constraint_name: String,
    pub column_name: String,
}

/// One column of an index, as the data dictionary lists it.
#[derive(Debug)]
pub struct OraTableIndexColumn {
    pub owner: String,
    pub table_name: String,
    pub index_name: String,
    pub uniqueness: String,
    pub column_name: String,
    pub descend: String,
}

/// The catalogue.
#[derive(Debug)]
pub struct MetaInfo {
    pub schemas: Vec<SchemaInfo>,
}

/// One schema with its tables and views.
#[derive(Debug)]
pub struct SchemaInfo {
    pub name: String,
    pub tables: Vec<TableInfo>,
}

/// One table or view.
#[derive(Debug)]
pub struct TableInfo {
    pub name: String,
    pub is_view: bool,
    pub temporary: bool,
    pub num_rows: i32,
    pub columns: Vec<ColumnInfo>,
    pub primary_key: Option<PrimaryKey>,
    pub indexes: Vec<TableIndex>,
}

/// One column: its name in lower case, its logical type, the descriptor
/// that it is fetched with and the name of its type for a reader.
#[derive(Debug)]
pub struct ColumnInfo {
    pub name: String,
    pub col_type: SqlType,
    pub oci_data_type: TypeDescriptor,
    pub col_type_name: String,
    pub nullable: bool,
}

/// A primary key: its name and the positions of its columns in the table.
#[derive(Debug)]
pub struct PrimaryKey {
    pub name: String,
    pub column_indices: Vec<usize>,
}

/// An index: its name, whether it is unique, and its columns.
#[derive(Debug)]
pub struct TableIndex {
    pub name: String,
    pub unique: bool,
    pub columns: Vec<IndexColumn>,
}

/// A column of an index: its position in the table and its direction.
#[derive(Debug)]
pub struct IndexColumn {
    pub column_index: usize,
    pub desc: bool,
}

/// What a reader is told of one column.
#[derive(Debug)]
pub struct ColumnMetaInfo<'a> {
    pub name: &'a str,
    pub col_type: &'a str,
    pub nullable: bool,
}

/// Error text for a column whose type the library does not read.
pub const UNSUPPORTED_TYPE: &'static str = "Unsupported SQL type";

/// The logical type of a number column: a number with a scale is a
/// floating point number; an integer takes 16 bits up to 4 digits, 32 bits
/// up to 7 digits, and 64 bits beyond that or where no precision is given.
pub open spec fn number_type_of(precision: u16, scale: u16) -> SqlType {
    if scale == 0 {
        if precision == 0 || precision > 7 {
            SqlType::Int64
        } else if precision > 4 {
            SqlType::Int32
        } else {
            SqlType::Int16
        }
    } else {
        SqlType::Float64
    }
}

/// The logical type of a number column.
pub fn number_type(precision: u16, scale: u16) -> (col_type: SqlType)
    ensures
        col_type == number_type_of(precision, scale),
{
    if scale == 0 {
        if precision == 0 || precision > 7 {
            SqlType::Int64
        } else if precision > 4 {
            SqlType::Int32
        } else {
            SqlType::Int16
        }
    } else {
        SqlType::Float64
    }
}

/// The logical type and the descriptor of a column of the given data
/// dictionary type, or nothing where the library does not read the type.
pub open spec fn column_type_of(data_type: Seq<char>, length: u16, precision: u16, scale: u16)
    -> Option<(SqlType, TypeDescriptor)> {
    if data_type == "CHAR"@ || data_type == "VARCHAR2"@ {
        Some((SqlType::Varchar, string_descriptor(length as usize)))
    } else if data_type == "LONG"@ {
        Some((SqlType::Varchar, sql_type_descriptor(SqlType::Long)))
    } else if data_type == "DATE"@ {
        Some((SqlType::DateTime, sql_type_descriptor(SqlType::DateTime)))
    } else if data_type == "NUMBER"@ {
        Some(
            (
                number_type_of(precision, scale),
                sql_type_descriptor(number_type_of(precision, scale)),
            ),
        )
    } else {
        None
    }
}

/// The name of a column's type for a reader.
pub open spec fn type_name_of(data_type: Seq<char>) -> Seq<char> {
    if data_type == "NUMBER"@ {
        "number"@
    } else {
        "string"@
    }
}

/// Whether the column of the catalogue is the one of the row: its name in
/// lower case, whether it takes NULLs, its logical type with the descriptor
/// and the name of its type for a reader.
pub open spec fn column_of_row(column: ColumnInfo, row: OraTableColumn) -> bool {
    &&& column.name@ == lowercase(row.column_name@)
    &&& column.nullable == (row.nullable@ == "Y"@)
    &&& Some((column.col_type, column.oci_data_type)) == column_type_of(
        row.data_type@,
        row.data_length,
        row.data_precision,
        row.data_scale,
    )
    &&& column.col_type_name@ == type_name_of(row.data_type@)
}

/// Whether the library reads the type of the column of the row.
pub open spec fn column_readable(row: OraTableColumn) -> bool {
    column_type_of(row.data_type@, row.data_length, row.data_precision, row.data_scale) is Some
}

/// The type names that stand for text differ from the one for numbers.
proof fn lemma_type_names_differ()
    ensures
        "CHAR"@ != "NUMBER"@,
        "VARCHAR2"@ != "NUMBER"@,
        "LONG"@ != "NUMBER"@,
        "DATE"@ != "NUMBER"@,
{
    reveal_strlit("CHAR");
    reveal_strlit("VARCHAR2");
    reveal_strlit("LONG");
    reveal_strlit("DATE");
    reveal_strlit("NUMBER");
    assert("CHAR"@.len() != "NUMBER"@.len());
    assert("VARCHAR2"@.len() != "NUMBER"@.len());
    assert("LONG"@.len() != "NUMBER"@.len());
    assert("DATE"@.len() != "NUMBER"@.len());
}

impl ColumnInfo {
    /// The column of the catalogue for a row of the data dictionary. Fails
    /// exactly where the library does not read the column's type.
    pub fn try_from(v: OraTableColumn) -> (made: Result<ColumnInfo, &'static str>)
        ensures
            made is Ok <==> column_readable(v),
            made matches Ok(column) ==> column_of_row(column, v),
            made matches Err(error) ==> error@ == UNSUPPORTED_TYPE@,
    {
        ColumnInfo::from_row(&v)
    }

    /// The column of the catalogue for a row of the data dictionary, which
    /// is left as it is.
    pub fn from_row(v: &OraTableColumn) -> (made: Result<ColumnInfo, &'static str>)
        ensures
            made is Ok <==> column_readable(*v),
            made matches Ok(column) ==> column_of_row(column, *v),
            made matches Err(error) ==> error@ == UNSUPPORTED_TYPE@,
    {
        proof {
            lemma_type_names_differ();
        }
        let name = to_lowercase(v.column_name.as_str());
        let nullable = same_text(v.nullable.as_str(), "Y");
        let ora_type_name = v.data_type.as_str();
        if same_text(ora_type_name, "CHAR") || same_text(ora_type_name, "VARCHAR2") {
            Ok(
                ColumnInfo {
                    name,
                    col_type: SqlType::Varchar,
                    oci_data_type: string_sqltype(v.data_length as usize),
                    col_type_name: String::from_str("string"),
                    nullable,
                },
            )
        } else if same_text(ora_type_name, "LONG") {
            Ok(
                ColumnInfo {
                    name,
                    col_type: SqlType::Varchar,
                    oci_data_type: TypeDescriptor::for_sql_type(SqlType::Long),
                    col_type_name: String::from_str("string"),
                    nullable,
                },
            )
        } else if same_text(ora_type_name, "DATE") {
            Ok(
                ColumnInfo {
                    name,
                    col_type: SqlType::DateTime,
                    oci_data_type: TypeDescriptor::for_sql_type(SqlType::DateTime),
                    col_type_name: String::from_str("string"),
                    nullable,
                },
            )
        } else if same_text(ora_type_name, "NUMBER") {
            let col_type = number_type(v.data_precision, v.data_scale);
            Ok(
                ColumnInfo {
                    name,
                    col_type,
                    oci_data_type: TypeDescriptor::for_sql_type(col_type),
                    col_type_name: String::from_str("number"),
                    nullable,
                },
            )
        } else {
            Err(UNSUPPORTED_TYPE)
        }
    }
}

impl TableInfo {
    /// The positions that the primary key and the indexes name are
    /// positions of columns of the table.
    pub open spec fn wf(&self) -> bool {
        &&& self.primary_key matches Some(key) ==> forall|i: int|
            0 <= i < key.column_indices@.len() ==> #[trigger] key.column_indices@[i]
                < self.columns@.len()
        &&& forall|i: int, j: int|
            0 <= i < self.indexes@.len() && 0 <= j < self.indexes@[i].columns@.len() ==> (
            #[trigger] self.indexes@[i].columns@[j]).column_index < self.columns@.len()
    }

    /// The position of the first column of the given name.
    pub fn column_position(&self, name: &str) -> (position: Option<usize>)
        ensures
            position is Some <==> exists|i: int|
                0 <= i < self.columns@.len() && (#[trigger] self.columns@[i]).name@ == name@,
            position matches Some(found) ==> {
                &&& found < self.columns@.len()
                &&& self.columns@[found as int].name@ == name@
                &&& forall|j: int| 0 <= j < found ==> (#[trigger] self.columns@[j]).name@ != name@
            },
    {
        find_column(&self.columns, name)
    }

    /// What a reader is told of the columns, in their order.
    pub fn column_meta<'a>(&'a self) -> (meta: Vec<ColumnMetaInfo<'a>>)
        ensures
            meta@.len() == self.columns@.len(),
            forall|i: int|
                0 <= i < meta@.len() ==> {
                    &&& (#[trigger] meta@[i]).name@ == self.columns@[i].name@
                    &&& meta@[i].col_type@ == self.columns@[i].col_type_name@
                    &&& meta@[i].nullable == self.columns@[i].nullable
                },
    {
        let mut meta: Vec<ColumnMetaInfo<'a>> = Vec::new();
        let mut i: usize = 0;
        while i < self.columns.len()
            invariant
                i <= self.columns@.len(),
                meta@.len() == i,
                forall|k: int|
                    0 <= k < i ==> {
                        &&& (#[trigger] meta@[k]).name@ == self.columns@[k].name@
                        &&& meta@[k].col_type@ == self.columns@[k].col_type_name@
                        &&& meta@[k].nullable == self.columns@[k].nullable
                    },
            decreases self.columns@.len() - i,
        {
            let c = &self.columns[i];
            meta.push(
                ColumnMetaInfo {
                    name: c.name.as_str(),
                    col_type: c.col_type_name.as_str(),
                    nullable: c.nullable,
                },
            );
            i = i + 1;
        }
        meta
    }
}

/// The position of the first column of the given name.
pub fn find_column(columns: &Vec<ColumnInfo>, name: &str) -> (position: Option<usize>)
    ensures
        position is Some <==> exists|i: int|
            0 <= i < columns@.len() && (#[trigger] columns@[i]).name@ == name@,
        position matches Some(found) ==> {
            &&& found < columns@.len()
            &&& columns@[found as int].name@ == name@
            &&& forall|j: int| 0 <= j < found ==> (#[trigger] columns@[j]).name@ != name@
        },
{
    let mut i: usize = 0;
    while i < columns.len()
        invariant
            i <= columns@.len(),
            forall|j: int| 0 <= j < i ==> (#[trigger] columns@[j]).name@ != name@,
        decreases columns@.len() - i,
    {
        if same_text(columns[i].name.as_str(), name) {
            return Some(i);
        }
        i = i + 1;
    }
    None
}

/// Every position is a position among `count` columns.
pub open spec fn positions_within(positions: Seq<usize>, count: int) -> bool {
    forall|i: int| 0 <= i < positions.len() ==> #[trigger] positions[i] < count
}

/// Every column of every index is a position among `count` columns.
pub open spec fn indexes_within(indexes: Seq<TableIndex>, count: int) -> bool {
    forall|i: int, j: int|
        0 <= i < indexes.len() && 0 <= j < indexes[i].columns@.len() ==> (
        #[trigger] indexes[i].columns@[j]).column_index < count
}

/// Whether a row of the data dictionary counts for a table: it names the
/// table's owner and the table, and a column that the table has, whatever
/// the case of the column's name.
pub open spec fn names_column_of(
    owner: Seq<char>,
    table_name: Seq<char>,
    columns: Seq<ColumnInfo>,
    row_owner: Seq<char>,
    row_table: Seq<char>,
    row_column: Seq<char>,
) -> bool {
    row_owner == owner && row_table == table_name && has_column(columns, lowercase(row_column))
}

/// The position in the table of the column that a row names.
pub open spec fn position_named(columns: Seq<ColumnInfo>, row_column: Seq<char>) -> usize {
    column_named(columns, lowercase(row_column)) as usize
}

/// A primary key as its rows give it: the name of the constraint and the
/// positions of its columns in the table.
pub struct KeyView {
    pub name: Seq<char>,
    pub positions: Seq<usize>,
}

/// The key that the first `count` key rows give a table. A row that counts
/// for the table adds its column to the key of its constraint; where it
/// names another constraint than the row before it that counted, the key
/// begins anew with it.
pub open spec fn key_after(
    owner: Seq<char>,
    table_name: Seq<char>,
    columns: Seq<ColumnInfo>,
    keys: Seq<OraTablePrimaryKeyColumn>,
    count: int,
) -> KeyView
    decreases count,
{
    if count <= 0 {
        KeyView { name: Seq::empty(), positions: Seq::empty() }
    } else {
        let before = key_after(owner, table_name, columns, keys, count - 1);
        let row = keys[count - 1];
        if names_column_of(
            owner,
            table_name,
            columns,
            row.owner@,
            row.table_name@,
            row.column_name@,
        ) {
            let kept = if before.positions.len() > 0 && before.name != row.constraint_name@ {
                Seq::empty()
            } else {
                before.positions
            };
            KeyView {
                name: row.constraint_name@,
                positions: kept.push(position_named(columns, row.column_name@)),
            }
        } else {
            before
        }
    }
}

/// The primary key that the key rows give a table, if they give it one:
/// the key of the last constraint that the rows name for the table, with
/// the columns of the rows that follow each other for it.
pub open spec fn primary_key_of(
    owner: Seq<char>,
    table_name: Seq<char>,
    columns: Seq<ColumnInfo>,
    keys: Seq<OraTablePrimaryKeyColumn>,
) -> Option<KeyView> {
    let key = key_after(owner, table_name, columns, keys, keys.len() as int);
    if key.positions.len() > 0 {
        Some(key)
    } else {
        None
    }
}

/// Whether the primary key of the catalogue is the one that the rows give.
pub open spec fn key_is(key: Option<PrimaryKey>, view: Option<KeyView>) -> bool {
    match (key, view) {
        (Some(found), Some(given)) => found.name@ == given.name && found.column_indices@
            == given.positions,
        (None, None) => true,
        _ => false,
    }
}

/// The primary key of a table: the columns that the key rows of the table
/// name and that the table has, in the rows' order. Rows of one constraint
/// follow each other; where the rows name several constraints, the last
/// one is the key.
fn primary_key_for(
    owner: &str,
    table_name: &str,
    columns: &Vec<ColumnInfo>,
    keys: &Vec<OraTablePrimaryKeyColumn>,
) -> (key: Option<PrimaryKey>)
    ensures
        key_is(key, primary_key_of(owner@, table_name@, columns@, keys@)),
        key matches Some(found) ==> found.column_indices@.len() > 0 && positions_within(
            found.column_indices@,
            columns@.len() as int,
        ),
        key is Some ==> exists|i: int|
            0 <= i < keys@.len() && (#[trigger] keys@[i]).owner@ == owner@ && keys@[i].table_name@
                == table_name@,
{
    let mut name = String::new();
    let mut column_indices: Vec<usize> = Vec::new();
    let mut i: usize = 0;
    while i < keys.len()
        invariant
            i <= keys@.len(),
            positions_within(column_indices@, columns@.len() as int),
            column_indices@.len() > 0 ==> exists|k: int|
                0 <= k < keys@.len() && (#[trigger] keys@[k]).owner@ == owner@
                    && keys@[k].table_name@ == table_name@,
            name@ == key_after(owner@, table_name@, columns@, keys@, i as int).name,
            column_indices@ == key_after(owner@, table_name@, columns@, keys@, i as int).positions,
        decreases keys@.len() - i,
    {
        let row = &keys[i];
        let ghost before = key_after(owner@, table_name@, columns@, keys@, i as int);
        if same_text(row.owner.as_str(), owner) && same_text(row.table_name.as_str(), table_name) {
            let column_name = to_lowercase(row.column_name.as_str());
            match find_column(columns, column_name.as_str()) {
                Some(position) => {
                    proof {
                        lemma_first_column(columns@, column_name@, position as int);
                    }
                    if column_indices.len() > 0 && !same_text(
                        name.as_str(),
                        row.constraint_name.as_str(),
                    ) {
                        column_indices = Vec::new();
                    }
                    name = row.constraint_name.clone();
                    column_indices.push(position);
                },
                None => {
                    proof {
                        assert(!has_column(columns@, column_name@));
                    }
                },
            }
        }
        i = i + 1;
    }
    if column_indices.len() > 0 {
        Some(PrimaryKey { name, column_indices })
    } else {
        None
    }
}

/// An index as its rows give it: its name, whether it is unique, and its
/// columns.
pub struct IndexView {
    pub name: Seq<char>,
    pub unique: bool,
    pub columns: Seq<IndexColumn>,
}

/// The indexes of a table while their rows are read: those whose rows
/// have ended, and the one whose rows may go on.
pub struct IndexesView {
    pub closed: Seq<IndexView>,
    pub open: IndexView,
}

/// What the catalogue holds of an index.
pub open spec fn index_view(index: TableIndex) -> IndexView {
    IndexView { name: index.name@, unique: index.unique, columns: index.columns@ }
}

/// The column of an index that a row gives: the position of the column
/// that it names, descending unless the row says `ACC`.
pub open spec fn index_column_of(columns: Seq<ColumnInfo>, row: OraTableIndexColumn)
    -> IndexColumn {
    IndexColumn {
        column_index: position_named(columns, row.column_name@),
        desc: row.descend@ != "ACC"@,
    }
}

/// The indexes that the first `count` index rows give a table. A row that
/// counts for the table adds its column to the index that it names; where
/// it names another index than the row before it that counted, by name or
/// by uniqueness, that index has ended and a new one begins with it.
pub open spec fn indexes_after(
    owner: Seq<char>,
    table_name: Seq<char>,
    columns: Seq<ColumnInfo>,
    rows: Seq<OraTableIndexColumn>,
    count: int,
) -> IndexesView
    decreases count,
{
    if count <= 0 {
        IndexesView {
            closed: Seq::empty(),
            open: IndexView { name: Seq::empty(), unique: false, columns: Seq::empty() },
        }
    } else {
        let before = indexes_after(owner, table_name, columns, rows, count - 1);
        let row = rows[count - 1];
        if names_column_of(
            owner,
            table_name,
            columns,
            row.owner@,
            row.table_name@,
            row.column_name@,
        ) {
            let unique = row.uniqueness@ == "UNIQUE"@;
            let goes_on = before.open.columns.len() == 0 || (before.open.name == row.index_name@
                && before.open.unique == unique);
            IndexesView {
                closed: if goes_on {
                    before.closed
                } else {
                    before.closed.push(before.open)
                },
                open: IndexView {
                    name: row.index_name@,
                    unique,
                    columns: (if goes_on {
                        before.open.columns
                    } else {
                        Seq::empty()
                    }).push(index_column_of(columns, row)),
                },
            }
        } else {
            before
        }
    }
}

/// The indexes that the index rows give a table, in the rows' order.
pub open spec fn indexes_of(
    owner: Seq<char>,
    table_name: Seq<char>,
    columns: Seq<ColumnInfo>,
    rows: Seq<OraTableIndexColumn>,
) -> Seq<IndexView> {
    let read = indexes_after(owner, table_name, columns, rows, rows.len() as int);
    if read.open.columns.len() > 0 {
        read.closed.push(read.open)
    } else {
        read.closed
    }
}

/// What the catalogue holds of the indexes.
pub open spec fn index_views(indexes: Seq<TableIndex>) -> Seq<IndexView> {
    indexes.map_values(|index: TableIndex| index_view(index))
}

/// The indexes of a table: for each run of index rows of the table that
/// name one index, the columns that the rows name and that the table has,
/// in the rows' order. An index none of whose columns the table has is
/// left out.
fn indexes_for(
    owner: &str,
    table_name: &str,
    columns: &Vec<ColumnInfo>,
    rows: &Vec<OraTableIndexColumn>,
) -> (indexes: Vec<TableIndex>)
    ensures
        index_views(indexes@) == indexes_of(owner@, table_name@, columns@, rows@),
        indexes_within(indexes@, columns@.len() as int),
        forall|i: int| 0 <= i < indexes@.len() ==> (#[trigger] indexes@[i]).columns@.len() > 0,
{
    let mut indexes: Vec<TableIndex> = Vec::new();
    let mut name = String::new();
    let mut unique = false;
    let mut index_columns: Vec<IndexColumn> = Vec::new();
    let mut i: usize = 0;
    proof {
        assert(index_views(indexes@) =~= Seq::<IndexView>::empty());
    }
    while i < rows.len()
        invariant
            i <= rows@.len(),
            indexes_within(indexes@, columns@.len() as int),
            forall|k: int| 0 <= k < indexes@.len() ==> (#[trigger] indexes@[k]).columns@.len() > 0,
            forall|k: int|
                0 <= k < index_columns@.len() ==> (#[trigger] index_columns@[k]).column_index
                    < columns@.len(),
            index_views(indexes@) == indexes_after(
                owner@,
                table_name@,
                columns@,
                rows@,
                i as int,
            ).closed,
            name@ == indexes_after(owner@, table_name@, columns@, rows@, i as int).open.name,
            unique == indexes_after(owner@, table_name@, columns@, rows@, i as int).open.unique,
            index_columns@ == indexes_after(
                owner@,
                table_name@,
                columns@,
                rows@,
                i as int,
            ).open.columns,
        decreases rows@.len() - i,
    {
        let row = &rows[i];
        if same_text(row.owner.as_str(), owner) && same_text(row.table_name.as_str(), table_name) {
            let column_name = to_lowercase(row.column_name.as_str());
            match find_column(columns, column_name.as_str()) {
                Some(column_index) => {
                    proof {
                        lemma_first_column(columns@, column_name@, column_index as int);
                    }
                    let row_unique = same_text(row.uniqueness.as_str(), "UNIQUE");
                    if index_columns.len() > 0 && !(same_text(
                        name.as_str(),
                        row.index_name.as_str(),
                    ) && unique == row_unique) {
                        let ghost before = indexes@;
                        let closed = TableIndex { name, unique, columns: index_columns };
                        indexes.push(closed);
                        proof {
                            assert(index_views(indexes@) =~= index_views(before).push(
                                index_view(closed),
                            ));
                            assert forall|a: int, b: int|
                                0 <= a < indexes@.len() && 0 <= b
                                    < indexes@[a].columns@.len() implies (
                            #[trigger] indexes@[a].columns@[b]).column_index
                                < columns@.len() by {
                                if a < before.len() {
                                    assert(indexes@[a] == before[a]);
                                }
                            }
                        }
                        index_columns = Vec::new();
                    }
                    name = row.index_name.clone();
                    unique = row_unique;
                    index_columns.push(
                        IndexColumn {
                            column_index,
                            desc: !same_text(row.descend.as_str(), "ACC"),
                        },
                    );
                },
                None => {
                    proof {
                        assert(!has_column(columns@, column_name@));
                    }
                },
            }
        }
        i = i + 1;
    }
    if index_columns.len() > 0 {
        let ghost before = indexes@;
        let closed = TableIndex { name, unique, columns: index_columns };
        indexes.push(closed);
        proof {
            assert(index_views(indexes@) =~= index_views(before).push(index_view(closed)));
            assert forall|a: int, b: int|
                0 <= a < indexes@.len() && 0 <= b < indexes@[a].columns@.len() implies (
            #[trigger] indexes@[a].columns@[b]).column_index < columns@.len() by {
                if a < before.len() {
                    assert(indexes@[a] == before[a]);
                }
            }
        }
    }
    indexes
}

/// Every table of the schemas is well formed.
pub open spec fn schemas_wf(schemas: Seq<SchemaInfo>) -> bool {
    forall|i: int, j: int|
        0 <= i < schemas.len() && 0 <= j < schemas[i].tables@.len() ==> (
        #[trigger] schemas[i].tables@[j]).wf()
}

/// The text in single quotes.
pub open spec fn quoted(text: Seq<char>) -> Seq<char> {
    "'"@ + text + "'"@
}

/// The list of schemas to leave out, as it stands in a statement: each
/// name in single quotes, with commas between them.
pub fn excludes_clause(excludes: &Vec<String>) -> (clause: String)
    ensures
        clause@ == joined(text_views(excludes@).map_values(|t: Seq<char>| quoted(t)), ","@),
{
    let mut quoted_excludes: Vec<String> = Vec::new();
    let mut i: usize = 0;
    while i < excludes.len()
        invariant
            i <= excludes@.len(),
            quoted_excludes@.len() == i,
            forall|k: int| 0 <= k < i ==> (#[trigger] quoted_excludes@[k])@ == quoted(excludes@[k]@),
        decreases excludes@.len() - i,
    {
        let mut q = String::from_str("'");
        q.append(excludes[i].as_str());
        q.append("'");
        quoted_excludes.push(q);
        i = i + 1;
    }
    proof {
        assert(text_views(quoted_excludes@) =~= text_views(excludes@).map_values(
            |t: Seq<char>| quoted(t),
        ));
    }
    join(&quoted_excludes, ",")
}

/// Whether the position lies in the run of the given number, where the
/// runs follow each other with the given lengths.
pub open spec fn in_run(lengths: Seq<usize>, run: int, position: int) -> bool {
    offset_of(lengths, run) <= position < offset_of(lengths, run) + lengths[run]
}

/// Whether the lengths are those of the runs of equal texts: the runs
/// follow each other and cover all the texts, none is empty, the texts of a
/// run are equal, and a run ends where the next text differs.
pub open spec fn is_runs(keys: Seq<Seq<char>>, lengths: Seq<usize>) -> bool {
    &&& total_size(lengths) == keys.len()
    &&& forall|r: int| 0 <= r < lengths.len() ==> #[trigger] lengths[r] >= 1
    &&& forall|r: int, k: int|
        0 <= r < lengths.len() && #[trigger] in_run(lengths, r, k) ==> keys[k] == keys[offset_of(
            lengths,
            r,
        )]
    &&& forall|r: int|
        0 < r < lengths.len() ==> keys[#[trigger] offset_of(lengths, r)] != keys[offset_of(
            lengths,
            r,
        ) - 1]
}

/// `Itertools::group_by` over the texts, each group counted: the lengths of
/// the runs of equal texts that follow each other, in their order.
#[verifier::external_body]
fn run_lengths(keys: &Vec<String>) -> (lengths: Vec<usize>)
    ensures
        is_runs(text_views(keys@), lengths@),
{
    keys.iter().group_by(|key| *key).into_iter().map(|(_, run)| run.count()).collect()
}

/// Whether a column row belongs to a table row: it names the table's owner
/// and the table.
pub open spec fn column_of_table(column: OraTableColumn, table: OraTable) -> bool {
    column.owner@ == table.owner@ && column.table_name@ == table.table_name@
}

/// Where the column rows of a table end that begin at the cursor: at the
/// first row from the cursor on that does not belong to the table.
pub open spec fn columns_end(columns: Seq<OraTableColumn>, cursor: int, table: OraTable) -> int
    decreases columns.len() - cursor,
{
    if 0 <= cursor < columns.len() && column_of_table(columns[cursor], table) {
        columns_end(columns, cursor + 1, table)
    } else {
        cursor
    }
}

/// Where the column rows of the table row at the position begin: where
/// those of the table row before it end, and at the first column row for
/// the first table row.
pub open spec fn cursor_at(tables: Seq<OraTable>, columns: Seq<OraTableColumn>, position: int)
    -> int
    decreases position,
{
    if position <= 0 {
        0
    } else {
        columns_end(columns, cursor_at(tables, columns, position - 1), tables[position - 1])
    }
}

/// Whether the columns of the catalogue are those of the rows, in the
/// rows' order, the rows left out whose type the library does not read.
pub open spec fn columns_of_rows(infos: Seq<ColumnInfo>, rows: Seq<OraTableColumn>) -> bool
    decreases rows.len(),
{
    if rows.len() == 0 {
        infos.len() == 0
    } else if column_readable(rows.last()) {
        &&& infos.len() > 0
        &&& column_of_row(infos.last(), rows.last())
        &&& columns_of_rows(infos.drop_last(), rows.drop_last())
    } else {
        columns_of_rows(infos, rows.drop_last())
    }
}

/// Whether the table of the catalogue is the one of the table row at the
/// position, with the columns of the column rows that follow for it.
pub open spec fn table_at(
    info: TableInfo,
    tables: Seq<OraTable>,
    columns: Seq<OraTableColumn>,
    position: int,
) -> bool {
    &&& table_of_row(info, tables[position])
    &&& columns_of_rows(
        info.columns@,
        columns.subrange(
            cursor_at(tables, columns, position),
            cursor_at(tables, columns, position + 1),
        ),
    )
}

/// Whether the table of the catalogue is the one of the row: its name in
/// lower case, its kind, and its number of rows.
pub open spec fn table_of_row(info: TableInfo, row: OraTable) -> bool {
    &&& info.name@ == lowercase(row.table_name@)
    &&& info.is_view == (row.table_type@ == "VIEW"@)
    &&& info.temporary == (row.temporary@ == "Y"@)
    &&& info.num_rows == row.num_rows
    &&& info.wf()
}

/// Whether the schemas are those of the table rows, grouped into runs of
/// one owner: a schema per run, named by the owner in lower case, with a
/// table per row of the run, in the rows' order.
pub open spec fn schemas_of_rows(
    schemas: Seq<SchemaInfo>,
    tables: Seq<OraTable>,
    columns: Seq<OraTableColumn>,
    lengths: Seq<usize>,
) -> bool {
    &&& schemas.len() == lengths.len()
    &&& forall|r: int|
        0 <= r < schemas.len() ==> {
            &&& (#[trigger] schemas[r]).name@ == lowercase(tables[offset_of(lengths, r)].owner@)
            &&& schemas[r].tables@.len() == lengths[r]
        }
    &&& forall|r: int, j: int|
        0 <= r < schemas.len() && 0 <= j < schemas[r].tables@.len() ==> table_at(
            #[trigger] schemas[r].tables@[j],
            tables,
            columns,
            offset_of(lengths, r) + j,
        )
}

/// The owners of the table rows.
pub open spec fn owners_of(tables: Seq<OraTable>) -> Seq<Seq<char>> {
    tables.map_values(|t: OraTable| t.owner@)
}

/// Builds the table of a row. It takes the column rows that follow at the
/// cursor for the table and gives the cursor behind them; columns of a type
/// that the library does not read are left out.
fn build_table(
    table: &OraTable,
    columns: &Vec<OraTableColumn>,
    cursor: usize,
    keys: &Vec<OraTablePrimaryKeyColumn>,
    indexes: &Vec<OraTableIndexColumn>,
) -> (built: (TableInfo, usize))
    requires
        cursor <= columns@.len(),
    ensures
        table_of_row(built.0, *table),
        cursor <= built.1 <= columns@.len(),
        built.1 == columns_end(columns@, cursor as int, *table),
        columns_of_rows(built.0.columns@, columns@.subrange(cursor as int, built.1 as int)),
{
    let mut c = cursor;
    let mut table_columns: Vec<ColumnInfo> = Vec::new();
    while c < columns.len() && same_text(columns[c].owner.as_str(), table.owner.as_str())
        && same_text(columns[c].table_name.as_str(), table.table_name.as_str())
        invariant
            cursor <= c <= columns@.len(),
            columns_end(columns@, cursor as int, *table) == columns_end(columns@, c as int, *table),
            columns_of_rows(table_columns@, columns@.subrange(cursor as int, c as int)),
        decreases columns@.len() - c,
    {
        let ghost so_far = table_columns@;
        let ghost rows = columns@.subrange(cursor as int, c + 1);
        proof {
            assert(rows.drop_last() =~= columns@.subrange(cursor as int, c as int));
            assert(rows.last() == columns@[c as int]);
        }
        match ColumnInfo::from_row(&columns[c]) {
            Ok(column) => {
                table_columns.push(column);
                proof {
                    assert(table_columns@.drop_last() =~= so_far);
                }
            },
            Err(_) => {},
        }
        c = c + 1;
    }
    let primary_key = primary_key_for(
        table.owner.as_str(),
        table.table_name.as_str(),
        &table_columns,
        keys,
    );
    let table_indexes = indexes_for(
        table.owner.as_str(),
        table.table_name.as_str(),
        &table_columns,
        indexes,
    );
    let info = TableInfo {
        name: to_lowercase(table.table_name.as_str()),
        is_view: same_text(table.table_type.as_str(), "VIEW"),
        temporary: same_text(table.temporary.as_str(), "Y"),
        num_rows: table.num_rows,
        columns: table_columns,
        primary_key,
        indexes: table_indexes,
    };
    (info, c)
}

impl MetaInfo {
    /// Every table of the catalogue is well formed.
    pub open spec fn wf(&self) -> bool {
        schemas_wf(self.schemas@)
    }

    /// Builds the catalogue from the rows of the data dictionary. The table
    /// rows come ordered by owner and table name, and so do the column rows:
    /// table rows of one owner that follow each other make one schema, and
    /// each table takes the column rows that follow for it. Names are kept
    /// in lower case.
    pub fn new(
        tables: &Vec<OraTable>,
        columns: &Vec<OraTableColumn>,
        keys: &Vec<OraTablePrimaryKeyColumn>,
        indexes: &Vec<OraTableIndexColumn>,
    ) -> (metainfo: MetaInfo)
        ensures
            metainfo.wf(),
            exists|lengths: Seq<usize>|
                is_runs(owners_of(tables@), lengths) && #[trigger] schemas_of_rows(
                    metainfo.schemas@,
                    tables@,
                    columns@,
                    lengths,
                ),
    {
        let mut owners: Vec<String> = Vec::new();
        let mut t: usize = 0;
        while t < tables.len()
            invariant
                t <= tables@.len(),
                owners@.len() == t,
                forall|k: int| 0 <= k < t ==> (#[trigger] owners@[k])@ == tables@[k].owner@,
            decreases tables@.len() - t,
        {
            owners.push(tables[t].owner.clone());
            t = t + 1;
        }
        assert(text_views(owners@) =~= owners_of(tables@));
        let lengths = run_lengths(&owners);
        let n_tables = tables.len();
        let mut schemas: Vec<SchemaInfo> = Vec::new();
        let mut cursor: usize = 0;
        let mut start: usize = 0;
        let mut r: usize = 0;
        while r < lengths.len()
            invariant
                r <= lengths@.len(),
                n_tables == tables@.len(),
                is_runs(owners_of(tables@), lengths@),
                start == offset_of(lengths@, r as int),
                start <= tables@.len(),
                cursor <= columns@.len(),
                cursor == cursor_at(tables@, columns@, start as int),
                schemas@.len() == r,
                forall|i: int|
                    0 <= i < r ==> {
                        &&& (#[trigger] schemas@[i]).name@ == lowercase(
                            tables@[offset_of(lengths@, i)].owner@,
                        )
                        &&& schemas@[i].tables@.len() == lengths@[i]
                    },
                forall|i: int, j: int|
                    0 <= i < r && 0 <= j < schemas@[i].tables@.len() ==> table_at(
                        #[trigger] schemas@[i].tables@[j],
                        tables@,
                        columns@,
                        offset_of(lengths@, i) + j,
                    ),
            decreases lengths@.len() - r,
        {
            let count = lengths[r];
            proof {
                lemma_offset_of_step(lengths@, r as int);
                assert(owners_of(tables@).len() == tables@.len());
                assert(start + count <= tables@.len());
            }
            let mut schema_tables: Vec<TableInfo> = Vec::new();
            let mut j: usize = 0;
            while j < count
                invariant
                    j <= count,
                    start + count <= tables@.len(),
                    n_tables == tables@.len(),
                    cursor <= columns@.len(),
                    cursor == cursor_at(tables@, columns@, start + j),
                    schema_tables@.len() == j,
                    forall|k: int|
                        0 <= k < j ==> table_at(
                            #[trigger] schema_tables@[k],
                            tables@,
                            columns@,
                            start + k,
                        ),
                decreases count - j,
            {
                let built = build_table(&tables[start + j], columns, cursor, keys, indexes);
                cursor = built.1;
                schema_tables.push(built.0);
                j = j + 1;
            }
            let ghost before = schemas@;
            schemas.push(
                SchemaInfo {
                    name: to_lowercase(tables[start].owner.as_str()),
                    tables: schema_tables,
                },
            );
            proof {
                assert forall|i: int, k: int|
                    0 <= i < r + 1 && 0 <= k < schemas@[i].tables@.len() implies table_at(
                    #[trigger] schemas@[i].tables@[k],
                    tables@,
                    columns@,
                    offset_of(lengths@, i) + k,
                ) by {
                    if i < r {
                        assert(schemas@[i] == before[i]);
                    }
                }
                assert forall|i: int| 0 <= i < r + 1 implies {
                    &&& (#[trigger] schemas@[i]).name@ == lowercase(
                        tables@[offset_of(lengths@, i)].owner@,
                    )
                    &&& schemas@[i].tables@.len() == lengths@[i]
                } by {
                    if i < r {
                        assert(schemas@[i] == before[i]);
                    }
                }
            }
            start = start + count;
            r = r + 1;
        }
        proof {
            assert(schemas_of_rows(schemas@, tables@, columns@, lengths@));
        }
        MetaInfo { schemas }
    }

    /// The schema of the given name.
    pub fn schema(&self, name: &str) -> (found: Option<&SchemaInfo>)
        ensures
            found is Some <==> exists|i: int|
                0 <= i < self.schemas@.len() && (#[trigger] self.schemas@[i]).name@ == name@,
            found matches Some(schema) ==> schema.name@ == name@ && exists|i: int|
                0 <= i < self.schemas@.len() && #[trigger] self.schemas@[i] == *schema,
    {
        let mut i: usize = 0;
        while i < self.schemas.len()
            invariant
                i <= self.schemas@.len(),
                forall|j: int| 0 <= j < i ==> (#[trigger] self.schemas@[j]).name@ != name@,
            decreases self.schemas@.len() - i,
        {
            if same_text(self.schemas[i].name.as_str(), name) {
                return Some(&self.schemas[i]);
            }
            i = i + 1;
        }
        None
    }
}

impl SchemaInfo {
    /// The table of the given name.
    pub fn table(&self, name: &str) -> (found: Option<&TableInfo>)
        ensures
            found is Some <==> exists|i: int|
                0 <= i < self.tables@.len() && (#[trigger] self.tables@[i]).name@ == name@,
            found matches Some(table) ==> table.name@ == name@ && exists|i: int|
                0 <= i < self.tables@.len() && #[trigger] self.tables@[i] == *table,
    {
        let mut i: usize = 0;
        while i < self.tables.len()
            invariant
                i <= self.tables@.len(),
                forall|j: int| 0 <= j < i ==> (#[trigger] self.tables@[j]).name@ != name@,
            decreases self.tables@.len() - i,
        {
            if same_text(self.tables[i].name.as_str(), name) {
                return Some(&self.tables[i]);
            }
            i = i + 1;
        }
        None
    }
}

} // verus!
