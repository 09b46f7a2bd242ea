//! The state that the handlers of a server share.

use vstd::prelude::*;
use crate::metainfo::{
    is_runs,
    owners_of,
    schemas_of_rows,
    MetaInfo,
    OraTable,
    OraTableColumn,
    OraTableIndexColumn,
    OraTablePrimaryKeyColumn,
};

verus! {

/// The shared state: the catalogue.
pub struct ApplicationState {
    pub metainfo: MetaInfo,
}

impl ApplicationState {
    /// The state for the rows that were read from the data dictionary:
    /// the catalogue built from them.
    pub fn load(
        tables: &Vec<OraTable>,
        columns: &Vec<OraTableColumn>,
        keys: &Vec<OraTablePrimaryKeyColumn>,
        indexes: &Vec<OraTableIndexColumn>,
    ) -> (state: ApplicationState)
        ensures
            state.metainfo.wf(),
            exists|lengths: Seq<usize>|
                is_runs(owners_of(tables@), lengths) && #[trigger] schemas_of_rows(
                    state.metainfo.schemas@,
                    tables@,
                    columns@,
                    lengths,
                ),
    {
        ApplicationState { metainfo: MetaInfo::new(tables, columns, keys, indexes) }
    }
}

} // verus!
