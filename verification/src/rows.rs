//! Providers for the rows of the data dictionary: each reads the columns
//! of its row in the order of the row's fields.

use vstd::prelude::*;
use crate::metainfo::{OraTable, OraTableColumn, OraTableIndexColumn, OraTablePrimaryKeyColumn};
use crate::results::{CellView, FromResultValue, ResultSet, ResultsProvider};
use crate::types::{string_descriptor, string_sqltype, TypeDescriptor, TypeDescriptorProducer};
use crate::values::text_value;

verus! {

/// Reads the tables and views, one row of the data dictionary each.
pub struct OraTableProvider;

impl ResultsProvider<OraTable> for OraTableProvider {
    open spec fn descriptor_list(&self) -> Seq<TypeDescriptor> {
        seq![
            string_descriptor(128),
            string_descriptor(128),
            string_descriptor(8),
            i32::descriptor_for(0),
            string_descriptor(2),
        ]
    }

    open spec fn decodable(&self, row: Seq<CellView>) -> bool {
        row.len() == 5 && i32::readable(row[3])
    }

    open spec fn decodes(&self, row: Seq<CellView>, result: OraTable) -> bool {
        &&& result.owner@ == text_value(row[0])
        &&& result.table_name@ == text_value(row[1])
        &&& result.table_type@ == text_value(row[2])
        &&& i32::decodes(row[3], result.num_rows)
        &&& result.temporary@ == text_value(row[4])
    }

    fn sql_descriptors(&self) -> (descriptors: Vec<TypeDescriptor>) {
        let descriptors = vec![
            string_sqltype(128),
            string_sqltype(128),
            string_sqltype(8),
            <i32 as TypeDescriptorProducer<i32>>::produce(),
            string_sqltype(2),
        ];
        assert(descriptors@ =~= self.descriptor_list());
        descriptors
    }

    fn accepts(&self, rs: &ResultSet) -> (ok: bool) {
        rs.len() == 5 && i32::can_read(&rs[3])
    }

    fn gen_result(&self, rs: ResultSet) -> (result: OraTable) {
        OraTable {
            owner: String::from_result(&rs[0]),
            table_name: String::from_result(&rs[1]),
            table_type: String::from_result(&rs[2]),
            num_rows: i32::from_result(&rs[3]),
            temporary: String::from_result(&rs[4]),
        }
    }
}

/// Reads the columns of tables, one row of the data dictionary each.
pub struct OraTableColumnProvider;

impl ResultsProvider<OraTableColumn> for OraTableColumnProvider {
    open spec fn descriptor_list(&self) -> Seq<TypeDescriptor> {
        seq![
            string_descriptor(128),
            string_descriptor(128),
            string_descriptor(128),
            string_descriptor(128),
            u16::descriptor_for(0),
            u16::descriptor_for(0),
            u16::descriptor_for(0),
            string_descriptor(2),
        ]
    }

    open spec fn decodable(&self, row: Seq<CellView>) -> bool {
        row.len() == 8 && u16::readable(row[4]) && u16::readable(row[5]) && u16::readable(row[6])
    }

    open spec fn decodes(&self, row: Seq<CellView>, result: OraTableColumn) -> bool {
        &&& result.owner@ == text_value(row[0])
        &&& result.table_name@ == text_value(row[1])
        &&& result.column_name@ == text_value(row[2])
        &&& result.data_type@ == text_value(row[3])
        &&& u16::decodes(row[4], result.data_length)
        &&& u16::decodes(row[5], result.data_precision)
        &&& u16::decodes(row[6], result.data_scale)
        &&& result.nullable@ == text_value(row[7])
    }

    fn sql_descriptors(&self) -> (descriptors: Vec<TypeDescriptor>) {
        let descriptors = vec![
            string_sqltype(128),
            string_sqltype(128),
            string_sqltype(128),
            string_sqltype(128),
            <u16 as TypeDescriptorProducer<u16>>::produce(),
            <u16 as TypeDescriptorProducer<u16>>::produce(),
            <u16 as TypeDescriptorProducer<u16>>::produce(),
            string_sqltype(2),
        ];
        assert(descriptors@ =~= self.descriptor_list());
        descriptors
    }

    fn accepts(&self, rs: &ResultSet) -> (ok: bool) {
        rs.len() == 8 && u16::can_read(&rs[4]) && u16::can_read(&rs[5]) && u16::can_read(&rs[6])
    }

    fn gen_result(&self, rs: ResultSet) -> (result: OraTableColumn) {
        OraTableColumn {
            owner: String::from_result(&rs[0]),
            table_name: String::from_result(&rs[1]),
            column_name: String::from_result(&rs[2]),
            data_type: String::from_result(&rs[3]),
            data_length: u16::from_result(&rs[4]),
            data_precision: u16::from_result(&rs[5]),
            data_scale: u16::from_result(&rs[6]),
            nullable: String::from_result(&rs[7]),
        }
    }
}

/// Reads the columns of primary keys, one row of the data dictionary each.
pub struct OraTablePrimaryKeyColumnProvider;

impl ResultsProvider<OraTablePrimaryKeyColumn> for OraTablePrimaryKeyColumnProvider {
    open spec fn descriptor_list(&self) -> Seq<TypeDescriptor> {
        seq![
            string_descriptor(128),
            string_descriptor(128),
            string_descriptor(128),
            string_descriptor(128),
        ]
    }

    open spec fn decodable(&self, row: Seq<CellView>) -> bool {
        row.len() == 4
    }

    open spec fn decodes(&self, row: Seq<CellView>, result: OraTablePrimaryKeyColumn) -> bool {
        &&& result.owner@ == text_value(row[0])
        &&& result.table_name@ == text_value(row[1])
        &&& result.constraint_name@ == text_value(row[2])
        &&& result.column_name@ == text_value(row[3])
    }

    fn sql_descriptors(&self) -> (descriptors: Vec<TypeDescriptor>) {
        let descriptors = vec![
            string_sqltype(128),
            string_sqltype(128),
            string_sqltype(128),
            string_sqltype(128),
        ];
        assert(descriptors@ =~= self.descriptor_list());
        descriptors
    }

    fn accepts(&self, rs: &ResultSet) -> (ok: bool) {
        rs.len() == 4
    }

    fn gen_result(&self, rs: ResultSet) -> (result: OraTablePrimaryKeyColumn) {
        OraTablePrimaryKeyColumn {
            owner: String::from_result(&rs[0]),
            table_name: String::from_result(&rs[1]),
            constraint_name: String::from_result(&rs[2]),
            column_name: String::from_result(&rs[3]),
        }
    }
}

/// Reads the columns of indexes, one row of the data dictionary each.
pub struct OraTableIndexColumnProvider;

impl ResultsProvider<OraTableIndexColumn> for OraTableIndexColumnProvider {
    open spec fn descriptor_list(&self) -> Seq<TypeDescriptor> {
        seq![
            string_descriptor(128),
            string_descriptor(128),
            string_descriptor(128),
            string_descriptor(10),
            string_descriptor(128),
            string_descriptor(4),
        ]
    }

    open spec fn decodable(&self, row: Seq<CellView>) -> bool {
        row.len() == 6
    }

    open spec fn decodes(&self, row: Seq<CellView>, result: OraTableIndexColumn) -> bool {
        &&& result.owner@ == text_value(row[0])
        &&& result.table_name@ == text_value(row[1])
        &&& result.index_name@ == text_value(row[2])
        &&& result.uniqueness@ == text_value(row[3])
        &&& result.column_name@ == text_value(row[4])
        &&& result.descend@ == text_value(row[5])
    }

    fn sql_descriptors(&self) -> (descriptors: Vec<TypeDescriptor>) {
        let descriptors = vec![
            string_sqltype(128),
            string_sqltype(128),
            string_sqltype(128),
            string_sqltype(10),
            string_sqltype(128),
            string_sqltype(4),
        ];
        assert(descriptors@ =~= self.descriptor_list());
        descriptors
    }

    fn accepts(&self, rs: &ResultSet) -> (ok: bool) {
        rs.len() == 6
    }

    fn gen_result(&self, rs: ResultSet) -> (result: OraTableIndexColumn) {
        OraTableIndexColumn {
            owner: String::from_result(&rs[0]),
            table_name: String::from_result(&rs[1]),
            index_name: String::from_result(&rs[2]),
            uniqueness: String::from_result(&rs[3]),
            column_name: String::from_result(&rs[4]),
            descend: String::from_result(&rs[5]),
        }
    }
}

} // verus!
