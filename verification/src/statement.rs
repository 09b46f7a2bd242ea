//! Prepared statements and queries: a statement owns its parameter area, a
//! query adds a result area and reads rows out of it.

use vstd::prelude::*;
use crate::error::{OracleError, OracleResult, OCI_ERROR};
use crate::params::{
    area_image,
    member_sizes,
    params_fit,
    projection_stores,
    PREPARE_LOCATION,
    ParamsProcessor,
    ParamsProvider,
};
use crate::results::{
    descriptor_sizes,
    result_area_size,
    results_fit,
    row_at,
    CursorView,
    IteratorStep,
    ResultIterator,
    ResultProcessor,
    ResultsProvider,
    QUERY_LOCATION,
};

verus! {

/// Operation label of the error for a query that returned no row.
pub const FETCH_ONE_LOCATION: &'static str = "fetch_one";

/// Operation label of the error for a row that its provider cannot read.
pub const GEN_RESULT_LOCATION: &'static str = "gen_result";

/// Rows of a batch for a query that is prepared without naming them.
pub const DEFAULT_PREFETCH_ROWS: usize = 10;

/// A prepared statement with parameters of type `P`, which may be the unit
/// value.
pub struct Statement<P, Pr: ParamsProvider<P>> {
    pub provider: Pr,
    pub params: ParamsProcessor,
    pub _params: core::marker::PhantomData<P>,
}

impl<P, Pr: ParamsProvider<P>> Statement<P, Pr> {
    /// The parameter area is laid out for the provider's members.
    pub open spec fn wf(&self) -> bool {
        &&& self.params.wf()
        &&& self.params.member_seq() == self.provider.member_list()
    }

    /// Lays out the parameter area for the provider's members. Fails
    /// exactly where no area can be laid out for them.
    pub fn new(provider: Pr) -> (made: OracleResult<Statement<P, Pr>>)
        ensures
            made is Ok <==> params_fit(member_sizes(provider.member_list())),
            made matches Ok(statement) ==> statement.wf() && statement.provider == provider,
            made matches Err(error) ==> error.errcode == OCI_ERROR && error.location@
                == PREPARE_LOCATION@,
    {
        let members = provider.members();
        match ParamsProcessor::new(members) {
            Ok(params) => Ok(Statement { provider, params, _params: core::marker::PhantomData }),
            Err(error) => Err(error),
        }
    }

    /// Writes a parameter value into the parameter area, in place.
    pub fn set_params(&mut self, params: &P)
        requires
            old(self).wf(),
        ensures
            final(self).wf(),
            final(self).provider == old(self).provider,
            projection_stores(
                old(self).params.slots(),
                final(self).params.slots(),
                old(self).provider.encodings(params),
            ),
    {
        self.params.set_params(&self.provider, params);
    }

    /// Writes a parameter value and gives the image of the parameter area
    /// that the statement is executed with, once.
    pub fn execute(&mut self, params: &P) -> (image: Vec<u8>)
        requires
            old(self).wf(),
        ensures
            final(self).wf(),
            final(self).provider == old(self).provider,
            projection_stores(
                old(self).params.slots(),
                final(self).params.slots(),
                old(self).provider.encodings(params),
            ),
            image@ == area_image(
                final(self).params.member_seq(),
                final(self).params.slots(),
                final(self).params.slots().len() as int,
            ),
    {
        self.set_params(params);
        self.params.render()
    }

    /// Makes a query with batches of ten rows.
    pub fn query<R, Rp: ResultsProvider<R>>(self, provider: Rp) -> (made: OracleResult<
        Query<P, R, Pr, Rp>,
    >)
        requires
            self.wf(),
        ensures
            made is Ok <==> results_fit(
                descriptor_sizes(provider.descriptor_list()),
                DEFAULT_PREFETCH_ROWS as int,
            ),
            made matches Ok(query) ==> query.wf() && query.prefetch_rows == DEFAULT_PREFETCH_ROWS
                && query.provider == provider && query.stmt == self,
            made matches Err(error) ==> error.errcode == OCI_ERROR && error.location@
                == QUERY_LOCATION@,
    {
        Query::new(self, provider, DEFAULT_PREFETCH_ROWS)
    }

    /// Makes a query with batches of one row.
    pub fn query_one<R, Rp: ResultsProvider<R>>(self, provider: Rp) -> (made: OracleResult<
        Query<P, R, Pr, Rp>,
    >)
        requires
            self.wf(),
        ensures
            made is Ok <==> results_fit(descriptor_sizes(provider.descriptor_list()), 1),
            made matches Ok(query) ==> query.wf() && query.prefetch_rows == 1 && query.provider
                == provider && query.stmt == self,
            made matches Err(error) ==> error.errcode == OCI_ERROR && error.location@
                == QUERY_LOCATION@,
    {
        Query::new(self, provider, 1)
    }

    /// Makes a query with batches of `prefetch_rows` rows.
    pub fn query_many<R, Rp: ResultsProvider<R>>(self, provider: Rp, prefetch_rows: usize) -> (made:
        OracleResult<Query<P, R, Pr, Rp>>)
        requires
            self.wf(),
        ensures
            made is Ok <==> results_fit(
                descriptor_sizes(provider.descriptor_list()),
                prefetch_rows as int,
            ),
            made matches Ok(query) ==> query.wf() && query.prefetch_rows == prefetch_rows
                && query.provider == provider && query.stmt == self,
            made matches Err(error) ==> error.errcode == OCI_ERROR && error.location@
                == QUERY_LOCATION@,
    {
        Query::new(self, provider, prefetch_rows)
    }

    /// Makes a query whose columns are known only at run time.
    pub fn query_dynamic<R, Rp: ResultsProvider<R>>(
        self,
        provider: Rp,
        prefetch_rows: usize,
    ) -> (made: OracleResult<Query<P, R, Pr, Rp>>)
        requires
            self.wf(),
        ensures
            made is Ok <==> results_fit(
                descriptor_sizes(provider.descriptor_list()),
                prefetch_rows as int,
            ),
            made matches Ok(query) ==> query.wf() && query.prefetch_rows == prefetch_rows
                && query.provider == provider && query.stmt == self,
            made matches Err(error) ==> error.errcode == OCI_ERROR && error.location@
                == QUERY_LOCATION@,
    {
        Query::new(self, provider, prefetch_rows)
    }
}

/// A statement with a result area: a query with parameters of type `P` and
/// rows of type `R`.
pub struct Query<P, R, Pr: ParamsProvider<P>, Rp: ResultsProvider<R>> {
    pub stmt: Statement<P, Pr>,
    pub prefetch_rows: usize,
    pub provider: Rp,
    pub results: ResultProcessor,
    pub _result: core::marker::PhantomData<R>,
}

impl<P, R, Pr: ParamsProvider<P>, Rp: ResultsProvider<R>> Query<P, R, Pr, Rp> {
    /// The statement is well formed and the result area is laid out for
    /// the provider's columns and the rows of a batch.
    pub open spec fn wf(&self) -> bool {
        &&& self.stmt.wf()
        &&& self.results.wf()
        &&& self.results.descriptor_seq() == self.provider.descriptor_list()
        &&& self.results.rows() == self.prefetch_rows
    }

    /// The cells of a row of the batch at hand.
    pub open spec fn row_cells(&self, index: int) -> Seq<crate::results::CellView> {
        row_at(
            self.results.area(),
            descriptor_sizes(self.results.descriptor_seq()),
            self.results.rows(),
            index,
        )
    }

    /// Attaches a result area for the provider's columns and batches of
    /// `prefetch_rows` rows to a statement. Fails exactly where no area can
    /// be laid out for them.
    pub fn new(stmt: Statement<P, Pr>, provider: Rp, prefetch_rows: usize) -> (made: OracleResult<
        Query<P, R, Pr, Rp>,
    >)
        requires
            stmt.wf(),
        ensures
            made is Ok <==> results_fit(
                descriptor_sizes(provider.descriptor_list()),
                prefetch_rows as int,
            ),
            made matches Ok(query) ==> query.wf() && query.prefetch_rows == prefetch_rows
                && query.provider == provider && query.stmt == stmt,
            made matches Ok(query) ==> query.results.area().len() == result_area_size(
                descriptor_sizes(provider.descriptor_list()),
                prefetch_rows as int,
            ),
            made matches Err(error) ==> error.errcode == OCI_ERROR && error.location@
                == QUERY_LOCATION@,
    {
        let descriptors = provider.sql_descriptors();
        match ResultProcessor::new(descriptors, prefetch_rows) {
            Ok(results) => {
                proof {
                    results.lemma_area_fits();
                }
                Ok(
                Query {
                    stmt,
                    prefetch_rows,
                    provider,
                    results,
                    _result: core::marker::PhantomData,
                },
            )
            },
            Err(error) => Err(error),
        }
    }

    /// Writes a parameter value into the parameter area and gives the
    /// image that the query is executed with.
    pub fn bind(&mut self, params: &P) -> (image: Vec<u8>)
        requires
            old(self).wf(),
        ensures
            final(self).wf(),
            final(self).provider == old(self).provider,
            final(self).prefetch_rows == old(self).prefetch_rows,
            final(self).results == old(self).results,
            final(self).stmt.provider == old(self).stmt.provider,
            projection_stores(
                old(self).stmt.params.slots(),
                final(self).stmt.params.slots(),
                old(self).stmt.provider.encodings(params),
            ),
            image@ == area_image(
                final(self).stmt.params.member_seq(),
                final(self).stmt.params.slots(),
                final(self).stmt.params.slots().len() as int,
            ),
    {
        self.stmt.execute(params)
    }

    /// Reads the row at `index` of the batch at hand into a value. Fails
    /// exactly where the provider cannot read the row.
    pub fn read_row(&self, index: u32) -> (read: OracleResult<R>)
        requires
            self.wf(),
            index < self.prefetch_rows,
        ensures
            read is Ok <==> self.provider.decodable(self.row_cells(index as int)),
            read matches Ok(value) ==> self.provider.decodes(self.row_cells(index as int), value),
            read matches Err(error) ==> error.errcode == OCI_ERROR && error.location@
                == GEN_RESULT_LOCATION@,
    {
        let row = self.results.get_result(index as usize);
        if self.provider.accepts(&row) {
            Ok(self.provider.gen_result(row))
        } else {
            Err(
                OracleError::new(
                    "The row does not fit the type that it is read as".to_string(),
                    GEN_RESULT_LOCATION,
                ),
            )
        }
    }

    /// The cursor over the rows after the query was executed: with a full
    /// batch in the area where the execution said so, else with the rows
    /// that the statement reports as fetched.
    pub fn fetch_iter(&self, success: bool, last_fetched_rows: u32) -> (iterator: ResultIterator)
        requires
            self.wf(),
            !success ==> last_fetched_rows <= self.prefetch_rows,
        ensures
            iterator@.wf(),
            iterator@ == CursorView::start(
                self.prefetch_rows as int,
                if success {
                    self.prefetch_rows as int
                } else {
                    last_fetched_rows as int
                },
            ),
    {
        self.results.fetch_iter(success, last_fetched_rows)
    }

    /// The first row of a query, after it was executed. Fails with the
    /// label of this operation where the query returned no row, and with the
    /// label of the row's reading where the provider cannot read it.
    pub fn fetch_one(&self, success: bool, last_fetched_rows: u32) -> (fetched: OracleResult<R>)
        requires
            self.wf(),
            !success ==> last_fetched_rows <= self.prefetch_rows,
        ensures
            fetched is Ok <==> (success || last_fetched_rows >= 1) && self.provider.decodable(
                self.row_cells(0),
            ),
            fetched matches Ok(value) ==> self.provider.decodes(self.row_cells(0), value),
            fetched matches Err(error) ==> error.errcode == OCI_ERROR && error.location@ == (if success
                || last_fetched_rows >= 1 {
                GEN_RESULT_LOCATION@
            } else {
                FETCH_ONE_LOCATION@
            }),
    {
        let mut iterator = self.results.fetch_iter(success, last_fetched_rows);
        match iterator.next_step() {
            IteratorStep::Row(index) => self.read_row(index),
            _ => Err(
                OracleError::new("The request returned no data".to_string(), FETCH_ONE_LOCATION),
            ),
        }
    }

    /// Reads the rows of the batch at hand that were not handed out yet and
    /// adds them to the list, in their order. Says what the stream does
    /// then: fetch, or end. Stops at the first row that the provider cannot
    /// read, with an error.
    pub fn fetch_list(&self, iterator: &mut ResultIterator, list: &mut Vec<R>) -> (fetched:
        OracleResult<IteratorStep>)
        requires
            self.wf(),
            old(iterator)@.wf(),
            old(iterator)@.prefetch_rows == self.prefetch_rows,
        ensures
            final(iterator)@.wf(),
            final(iterator)@.prefetch_rows == old(iterator)@.prefetch_rows,
            final(iterator)@.done == old(iterator)@.done,
            final(iterator)@.rows_in_batch == old(iterator)@.rows_in_batch,
            old(iterator)@.cursor <= final(iterator)@.cursor,
            fetched is Ok <==> (forall|index: int|
                old(iterator)@.cursor <= index < old(iterator)@.rows_in_batch
                    ==> self.provider.decodable(#[trigger] self.row_cells(index))),
            fetched matches Ok(step) ==> {
                &&& final(iterator)@.pending() == 0
                &&& step == (if old(iterator)@.done {
                    IteratorStep::End
                } else {
                    IteratorStep::Fetch
                })
                &&& final(list)@.len() == old(list)@.len() + old(iterator)@.pending()
            },
            fetched matches Err(error) ==> error.errcode == OCI_ERROR && error.location@
                == GEN_RESULT_LOCATION@,
            old(list)@.len() <= final(list)@.len() <= old(list)@.len() + old(iterator)@.pending(),
            final(list)@.subrange(0, old(list)@.len() as int) == old(list)@,
            forall|k: int|
                old(list)@.len() <= k < final(list)@.len() ==> self.provider.decodes(
                    self.row_cells(old(iterator)@.cursor + k - old(list)@.len()),
                    #[trigger] final(list)@[k],
                ),
    {
        let ghost start = iterator@;
        let ghost before = list@;
        loop
            invariant
                self.wf(),
                start == old(iterator)@,
                before == old(list)@,
                start.wf(),
                iterator@.wf(),
                iterator@.prefetch_rows == start.prefetch_rows,
                start.prefetch_rows == self.prefetch_rows,
                iterator@.done == start.done,
                iterator@.rows_in_batch == start.rows_in_batch,
                start.cursor <= iterator@.cursor,
                list@.len() == before.len() + (iterator@.cursor - start.cursor),
                list@.subrange(0, before.len() as int) == before,
                forall|index: int|
                    start.cursor <= index < iterator@.cursor ==> self.provider.decodable(
                        #[trigger] self.row_cells(index),
                    ),
                forall|k: int|
                    before.len() <= k < list@.len() ==> self.provider.decodes(
                        self.row_cells(start.cursor + k - before.len()),
                        #[trigger] list@[k],
                    ),
            decreases iterator@.pending(),
        {
            let ghost at = iterator@.cursor;
            let ghost so_far = list@;
            match iterator.next_step() {
                IteratorStep::Row(index) => {
                    match self.read_row(index) {
                        Ok(value) => {
                            list.push(value);
                            proof {
                                assert(list@.subrange(0, before.len() as int) =~= so_far.subrange(
                                    0,
                                    before.len() as int,
                                ));
                            }
                        },
                        Err(error) => {
                            return Err(error);
                        },
                    }
                },
                step => {
                    return Ok(step);
                },
            }
        }
    }
}

} // verus!
