//! Result cells, rows and the traits through which a row is read.

use vstd::prelude::*;
use crate::error::{classify_fetch, fetch_status_of, FetchStatus, OracleError, OracleResult, OCI_ERROR};
use crate::memory::{
    align_checked,
    aligned_size,
    lemma_aligned_size_bounds,
    lemma_offset_of_step,
    lemma_total_size_nonnegative,
    max_area_size,
    offset_of,
    total_size,
};
use crate::types::TypeDescriptor;
use crate::values::{i16_value, u16_value};
use vstd::bytes::u16_from_le_bytes;
use vstd::slice::{slice_subrange, slice_to_vec};

verus! {

/// What one cell of a fetched row holds.
pub enum CellView {
    /// A value: the bytes of its slot and the length that the server
    /// reported for it.
    Present { data: Seq<u8>, len: u16 },
    /// A NULL.
    Null,
}

/// One cell of a fetched row: an owned copy of the slot's bytes with the
/// reported length, or a NULL.
#[derive(Debug, Clone)]
pub enum ResultValue {
    Val { data: Vec<u8>, len: u16 },
    Nil,
}

impl View for ResultValue {
    type V = CellView;

    open spec fn view(&self) -> CellView {
        match self {
            ResultValue::Val { data, len } => CellView::Present { data: data@, len: *len },
            ResultValue::Nil => CellView::Null,
        }
    }
}

/// One fetched row: a cell per column, in the columns' order.
pub type ResultSet = Vec<ResultValue>;

/// The cells of a row.
pub open spec fn row_view(row: Seq<ResultValue>) -> Seq<CellView> {
    row.map_values(|cell: ResultValue| cell@)
}

/// Whether a cell is a NULL or holds at least `width` bytes.
pub open spec fn cell_holds(cell: CellView, width: int) -> bool {
    match cell {
        CellView::Present { data, len } => data.len() >= width,
        CellView::Null => true,
    }
}

impl ResultValue {
    /// Applies `f` to the bytes and the length of a present value; a NULL
    /// gives `None`.
    pub fn map<U, F: FnOnce(&Vec<u8>, u16) -> U>(&self, f: F) -> (mapped: Option<U>)
        requires
            match self {
                ResultValue::Val { data, len } => f.requires((data, *len)),
                ResultValue::Nil => true,
            },
        ensures
            match self {
                ResultValue::Val { data, len } => mapped is Some && f.ensures(
                    (data, *len),
                    mapped->Some_0,
                ),
                ResultValue::Nil => mapped is None,
            },
    {
        match self {
            ResultValue::Val { data, len } => Some(f(data, *len)),
            ResultValue::Nil => None,
        }
    }

    /// Applies `f` to the bytes and the length of a present value; a NULL
    /// gives `default`.
    pub fn map_or<U, F: FnOnce(&Vec<u8>, u16) -> U>(&self, default: U, f: F) -> (mapped: U)
        requires
            match self {
                ResultValue::Val { data, len } => f.requires((data, *len)),
                ResultValue::Nil => true,
            },
        ensures
            match self {
                ResultValue::Val { data, len } => f.ensures((data, *len), mapped),
                ResultValue::Nil => mapped == default,
            },
    {
        match self {
            ResultValue::Val { data, len } => f(data, *len),
            ResultValue::Nil => default,
        }
    }

    /// Whether the cell is a NULL.
    pub fn is_null(&self) -> (null: bool)
        ensures
            null == (self@ is Null),
    {
        match self {
            ResultValue::Val { .. } => false,
            ResultValue::Nil => true,
        }
    }

    /// Whether the cell is a NULL or holds at least `width` bytes.
    pub fn holds(&self, width: usize) -> (enough: bool)
        ensures
            enough == cell_holds(self@, width as int),
    {
        match self {
            ResultValue::Val { data, len } => data.len() >= width,
            ResultValue::Nil => true,
        }
    }
}

/// Reads one value out of one cell.
pub trait FromResultValue: Sized {
    /// The cells that a value can be read from.
    spec fn readable(cell: CellView) -> bool;

    /// Whether `value` is what the cell reads as.
    spec fn decodes(cell: CellView, value: Self) -> bool;

    fn can_read(cell: &ResultValue) -> (ok: bool)
        ensures
            ok == Self::readable(cell@),
    ;

    fn from_result(cell: &ResultValue) -> (value: Self)
        requires
            Self::readable(cell@),
        ensures
            Self::decodes(cell@, value),
    ;
}

/// Describes the columns of a query and reads one row into a value.
pub trait ResultsProvider<T> {
    /// The descriptors, one per column of the select list and in its order.
    spec fn descriptor_list(&self) -> Seq<TypeDescriptor>;

    /// The rows that a value can be read from.
    spec fn decodable(&self, row: Seq<CellView>) -> bool;

    /// Whether `result` is what the row reads as.
    spec fn decodes(&self, row: Seq<CellView>, result: T) -> bool;

    fn sql_descriptors(&self) -> (descriptors: Vec<TypeDescriptor>)
        ensures
            descriptors@ == self.descriptor_list(),
    ;

    fn accepts(&self, rs: &ResultSet) -> (ok: bool)
        ensures
            ok == self.decodable(row_view(rs@)),
    ;

    fn gen_result(&self, rs: ResultSet) -> (result: T)
        requires
            self.decodable(row_view(rs@)),
        ensures
            self.decodes(row_view(rs@), result),
    ;
}

/// Alignment of the values part of the result area.
pub const RESULT_VALUES_ALIGN: usize = 128;

/// Alignment of the indicators part and of the return lengths part.
pub const RESULT_INDICATORS_ALIGN: usize = 64;

/// Alignment of the whole result area.
pub const RESULT_AREA_ALIGN: usize = 256;

/// The sizes of the columns' slots.
pub open spec fn descriptor_sizes(descriptors: Seq<TypeDescriptor>) -> Seq<usize> {
    descriptors.map_values(|d: TypeDescriptor| d.size)
}

/// Bytes of the values part: every column's size times the rows of a
/// batch, aligned.
pub open spec fn result_values_size(sizes: Seq<usize>, rows: int) -> int {
    aligned_size(total_size(sizes) * rows, RESULT_VALUES_ALIGN as int)
}

/// Bytes of the indicators part, and of the return lengths part: two per
/// column and row, aligned.
pub open spec fn result_indicators_size(sizes: Seq<usize>, rows: int) -> int {
    aligned_size(sizes.len() * rows * 2, RESULT_INDICATORS_ALIGN as int)
}

/// Bytes of the whole result area: the values part and the two parts of
/// indicators and return lengths, aligned.
pub open spec fn result_area_size(sizes: Seq<usize>, rows: int) -> int {
    aligned_size(
        result_values_size(sizes, rows) + 2 * result_indicators_size(sizes, rows),
        RESULT_AREA_ALIGN as int,
    )
}

/// Whether a result area can be laid out for columns of these sizes and
/// batches of `rows` rows: at least one row, rows and positions that fit 32
/// bits, sizes that fit a signed 32-bit number, and an area within the
/// largest area size.
pub open spec fn results_fit(sizes: Seq<usize>, rows: int) -> bool {
    &&& 1 <= rows <= u32::MAX
    &&& sizes.len() <= u32::MAX
    &&& forall|i: int| 0 <= i < sizes.len() ==> #[trigger] sizes[i] <= i32::MAX
    &&& result_area_size(sizes, rows) <= max_area_size()
}

/// Where the indicator of a cell stands: the area opens with the
/// indicators, column by column.
pub open spec fn indicator_offset(rows: int, column: int, row: int) -> int {
    2 * (column * rows + row)
}

/// Where the return length of a cell stands: the return lengths follow the
/// indicators, column by column.
pub open spec fn length_offset(sizes: Seq<usize>, rows: int, column: int, row: int) -> int {
    result_indicators_size(sizes, rows) + 2 * (column * rows + row)
}

/// Where the value of a cell stands: the values close the area, column by
/// column, each column holding its rows one after the other.
pub open spec fn value_offset(sizes: Seq<usize>, rows: int, column: int, row: int) -> int {
    2 * result_indicators_size(sizes, rows) + offset_of(sizes, column) * rows + row
        * sizes[column]
}

/// What registers one column: its position counted from one, its type code
/// and size, and where in the area its values, its indicators and its
/// return lengths begin.
#[derive(Debug, Clone, Copy)]
pub struct DefineRequest {
    pub position: u32,
    pub dtype: u16,
    pub size: usize,
    pub value_offset: usize,
    pub indicator_offset: usize,
    pub length_offset: usize,
}

/// The define request of the column at `index`.
pub open spec fn define_request(
    descriptors: Seq<TypeDescriptor>,
    rows: int,
    index: int,
) -> DefineRequest {
    let sizes = descriptor_sizes(descriptors);
    DefineRequest {
        position: (index + 1) as u32,
        dtype: descriptors[index].dtype,
        size: descriptors[index].size,
        value_offset: value_offset(sizes, rows, index, 0) as usize,
        indicator_offset: indicator_offset(rows, index, 0) as usize,
        length_offset: length_offset(sizes, rows, index, 0) as usize,
    }
}

/// The parts of a result area are at least as large as what they hold.
pub proof fn lemma_result_area_bounds(sizes: Seq<usize>, rows: int)
    requires
        0 <= rows,
    ensures
        0 <= total_size(sizes) * rows <= result_values_size(sizes, rows),
        0 <= sizes.len() * rows * 2 <= result_indicators_size(sizes, rows),
        result_values_size(sizes, rows) + 2 * result_indicators_size(sizes, rows)
            <= result_area_size(sizes, rows),
{
    lemma_total_size_nonnegative(sizes);
    assert(0 <= total_size(sizes) * rows) by (nonlinear_arith)
        requires
            0 <= total_size(sizes),
            0 <= rows,
    ;
    assert(0 <= sizes.len() * rows * 2) by (nonlinear_arith)
        requires
            0 <= sizes.len(),
            0 <= rows,
    ;
    lemma_aligned_size_bounds(total_size(sizes) * rows, RESULT_VALUES_ALIGN as int);
    lemma_aligned_size_bounds(sizes.len() * rows * 2, RESULT_INDICATORS_ALIGN as int);
    lemma_aligned_size_bounds(
        result_values_size(sizes, rows) + 2 * result_indicators_size(sizes, rows),
        RESULT_AREA_ALIGN as int,
    );
}

/// Every cell lies inside the area: its indicator within the indicators
/// part, its return length within the return lengths part and its value
/// within the values part.
pub proof fn lemma_cell_in_area(sizes: Seq<usize>, rows: int, column: int, row: int)
    requires
        0 <= column < sizes.len(),
        0 <= row < rows,
    ensures
        0 <= indicator_offset(rows, column, row),
        indicator_offset(rows, column, row) + 2 <= result_indicators_size(sizes, rows),
        result_indicators_size(sizes, rows) <= length_offset(sizes, rows, column, row),
        length_offset(sizes, rows, column, row) + 2 <= 2 * result_indicators_size(sizes, rows),
        2 * result_indicators_size(sizes, rows) <= value_offset(sizes, rows, column, row),
        value_offset(sizes, rows, column, row) + sizes[column] <= 2 * result_indicators_size(
            sizes,
            rows,
        ) + total_size(sizes) * rows,
        value_offset(sizes, rows, column, row) + sizes[column] <= result_area_size(sizes, rows),
        0 <= offset_of(sizes, column) * rows,
        offset_of(sizes, column + 1) * rows == offset_of(sizes, column) * rows + sizes[column]
            * rows,
        offset_of(sizes, column + 1) * rows <= total_size(sizes) * rows,
{
    lemma_result_area_bounds(sizes, rows);
    lemma_offset_of_step(sizes, column);
    let n = sizes.len() as int;
    let base = offset_of(sizes, column);
    let next = offset_of(sizes, column + 1);
    let size = sizes[column] as int;
    let total = total_size(sizes);
    assert(0 <= column * rows && column * rows + row + 1 <= n * rows) by (nonlinear_arith)
        requires
            0 <= column < n,
            0 <= row < rows,
    ;
    assert(n * rows * 2 == 2 * (n * rows)) by (nonlinear_arith);
    assert(0 <= base * rows && 0 <= row * size && row * size + size <= size * rows) by (
    nonlinear_arith)
        requires
            0 <= base,
            0 <= size,
            0 <= row < rows,
    ;
    assert(next * rows == base * rows + size * rows) by (nonlinear_arith)
        requires
            next == base + size,
    ;
    assert(next * rows <= total * rows) by (nonlinear_arith)
        requires
            next <= total,
            0 <= rows,
    ;
}

/// The cell of a column and a row, as the area holds it: a NULL where the
/// indicator is negative, else the bytes of the value's slot with the
/// return length.
pub open spec fn cell_at(area: Seq<u8>, sizes: Seq<usize>, rows: int, column: int, row: int)
    -> CellView {
    let indicator_at = indicator_offset(rows, column, row);
    let length_at = length_offset(sizes, rows, column, row);
    let value_at = value_offset(sizes, rows, column, row);
    if i16_value(area.subrange(indicator_at, indicator_at + 2)) < 0 {
        CellView::Null
    } else {
        CellView::Present {
            data: area.subrange(value_at, value_at + sizes[column]),
            len: u16_value(area.subrange(length_at, length_at + 2)),
        }
    }
}

/// The cells of a row, as the area holds them.
pub open spec fn row_at(area: Seq<u8>, sizes: Seq<usize>, rows: int, row: int) -> Seq<CellView> {
    Seq::new(sizes.len(), |column: int| cell_at(area, sizes, rows, column, row))
}

/// The result area of one prepared query: its layout, fixed at
/// preparation, and the bytes that each fetch overwrites.
pub struct ResultProcessor {
    descriptors: Vec<TypeDescriptor>,
    prefetch_rows: usize,
    indicators_size: usize,
    values_size: usize,
    allocated_size: usize,
    buffer: Vec<u8>,
}

/// Operation label of the error for a result area that cannot be laid out.
pub const QUERY_LOCATION: &'static str = "query";

/// The error of a result area that cannot be laid out.
fn result_layout_error() -> (error: OracleError)
    ensures
        error.errcode == OCI_ERROR,
        error.location@ == QUERY_LOCATION@,
{
    OracleError::new(
        "Can not lay out the result buffer: its size is out of range".to_string(),
        QUERY_LOCATION,
    )
}

impl ResultProcessor {
    /// The descriptors that the area was laid out for.
    pub closed spec fn descriptor_seq(&self) -> Seq<TypeDescriptor> {
        self.descriptors@
    }

    /// The rows of one batch.
    pub closed spec fn rows(&self) -> int {
        self.prefetch_rows as int
    }

    /// The bytes of the area.
    pub closed spec fn area(&self) -> Seq<u8> {
        self.buffer@
    }

    /// The layout matches the descriptors and the rows of a batch, and the
    /// area has the size of the layout.
    pub closed spec fn wf(&self) -> bool {
        let sizes = descriptor_sizes(self.descriptors@);
        &&& results_fit(sizes, self.prefetch_rows as int)
        &&& self.indicators_size == result_indicators_size(sizes, self.prefetch_rows as int)
        &&& self.values_size == result_values_size(sizes, self.prefetch_rows as int)
        &&& self.allocated_size == result_area_size(sizes, self.prefetch_rows as int)
        &&& self.buffer@.len() == self.allocated_size
    }

    /// Lays out the result area for the given columns and batches of
    /// `prefetch_rows` rows, all bytes zero. Fails, with the library's own
    /// error code, exactly where no area can be laid out for them.
    pub fn new(descriptors: Vec<TypeDescriptor>, prefetch_rows: usize) -> (made: OracleResult<
        ResultProcessor,
    >)
        ensures
            made is Ok <==> results_fit(descriptor_sizes(descriptors@), prefetch_rows as int),
            made matches Ok(processor) ==> {
                &&& processor.wf()
                &&& processor.descriptor_seq() == descriptors@
                &&& processor.rows() == prefetch_rows
                &&& processor.area() == Seq::new(
                    result_area_size(descriptor_sizes(descriptors@), prefetch_rows as int) as nat,
                    |i: int| 0u8,
                )
            },
            made matches Err(error) ==> error.errcode == OCI_ERROR && error.location@
                == QUERY_LOCATION@,
    {
        let ghost sizes = descriptor_sizes(descriptors@);
        let ghost rows = prefetch_rows as int;
        let columns_cnt = descriptors.len();
        if prefetch_rows == 0 || prefetch_rows > u32::MAX as usize || columns_cnt
            > u32::MAX as usize {
            return Err(result_layout_error());
        }
        proof {
            lemma_result_area_bounds(sizes, rows);
        }
        let mut val_size: usize = 0;
        let mut i: usize = 0;
        while i < columns_cnt
            invariant
                i <= columns_cnt,
                columns_cnt == descriptors@.len(),
                sizes == descriptor_sizes(descriptors@),
                rows == prefetch_rows,
                1 <= rows,
                val_size == offset_of(sizes, i as int),
                val_size <= isize::MAX,
                forall|k: int| 0 <= k < i ==> sizes[k] <= i32::MAX,
            decreases columns_cnt - i,
        {
            let size = descriptors[i].size;
            proof {
                lemma_offset_of_step(sizes, i as int);
                lemma_result_area_bounds(sizes, rows);
                assert(total_size(sizes) <= total_size(sizes) * rows) by (nonlinear_arith)
                    requires
                        0 <= total_size(sizes),
                        1 <= rows,
                ;
            }
            if size > i32::MAX as usize {
                return Err(result_layout_error());
            }
            if size > isize::MAX as usize - val_size {
                return Err(result_layout_error());
            }
            val_size = val_size + size;
            i = i + 1;
        }
        proof {
            assert(sizes.take(sizes.len() as int) =~= sizes);
            assert(val_size * prefetch_rows <= 0x7fff_ffff_ffff_ffff * 0xffff_ffff) by (
            nonlinear_arith)
                requires
                    0 <= val_size <= 0x7fff_ffff_ffff_ffff,
                    0 <= prefetch_rows <= 0xffff_ffff,
            ;
            assert(columns_cnt * prefetch_rows * 2 <= 0xffff_ffff * 0xffff_ffff * 2) by (
            nonlinear_arith)
                requires
                    0 <= columns_cnt <= 0xffff_ffff,
                    0 <= prefetch_rows <= 0xffff_ffff,
            ;
            assert(0 <= columns_cnt * prefetch_rows) by (nonlinear_arith)
                requires
                    0 <= columns_cnt,
                    0 <= prefetch_rows,
            ;
        }
        let wide_values: u128 = val_size as u128 * prefetch_rows as u128;
        let wide_cells: u128 = columns_cnt as u128 * prefetch_rows as u128 * 2;
        if wide_values > isize::MAX as u128 || wide_cells > isize::MAX as u128 {
            return Err(result_layout_error());
        }
        let values_size = match align_checked(wide_values as usize, RESULT_VALUES_ALIGN) {
            Some(v) => v,
            None => {
                return Err(result_layout_error());
            },
        };
        let indicators_size = match align_checked(wide_cells as usize, RESULT_INDICATORS_ALIGN) {
            Some(v) => v,
            None => {
                return Err(result_layout_error());
            },
        };
        if indicators_size > (isize::MAX as usize) / 2 {
            return Err(result_layout_error());
        }
        if values_size > isize::MAX as usize - 2 * indicators_size {
            return Err(result_layout_error());
        }
        let allocated_size = match align_checked(
            values_size + 2 * indicators_size,
            RESULT_AREA_ALIGN,
        ) {
            Some(v) => v,
            None => {
                return Err(result_layout_error());
            },
        };
        let buffer: Vec<u8> = vec![0u8; allocated_size];
        assert(buffer@ =~= Seq::new(allocated_size as nat, |i: int| 0u8));
        Ok(
            ResultProcessor {
                descriptors,
                prefetch_rows,
                indicators_size,
                values_size,
                allocated_size,
                buffer,
            },
        )
    }

    /// Bytes of the whole area.
    pub fn allocated_size(&self) -> (size: usize)
        requires
            self.wf(),
        ensures
            size == result_area_size(descriptor_sizes(self.descriptor_seq()), self.rows()),
    {
        self.allocated_size
    }

    /// The rows of one batch.
    pub fn prefetch_rows(&self) -> (rows: usize)
        ensures
            rows == self.rows(),
    {
        self.prefetch_rows
    }

    /// The bytes of the area.
    pub fn buffer(&self) -> (buffer: &Vec<u8>)
        ensures
            buffer@ == self.area(),
    {
        &self.buffer
    }

    /// A well-formed area fits its layout.
    pub proof fn lemma_area_fits(&self)
        requires
            self.wf(),
        ensures
            results_fit(descriptor_sizes(self.descriptor_seq()), self.rows()),
            self.area().len() == result_area_size(
                descriptor_sizes(self.descriptor_seq()),
                self.rows(),
            ),
    {
    }

    /// Takes the bytes that a fetch left in the area. They are taken only
    /// if they have the size of the area; the layout stays as it is.
    pub fn replace_buffer(&mut self, image: Vec<u8>) -> (taken: bool)
        requires
            old(self).wf(),
        ensures
            final(self).wf(),
            final(self).descriptor_seq() == old(self).descriptor_seq(),
            final(self).rows() == old(self).rows(),
            taken == (image@.len() == old(self).area().len()),
            final(self).area() == (if taken {
                image@
            } else {
                old(self).area()
            }),
    {
        if image.len() == self.allocated_size {
            self.buffer = image;
            true
        } else {
            false
        }
    }

    /// The define requests, one per column and in the columns' order.
    pub fn defines(&self) -> (requests: Vec<DefineRequest>)
        requires
            self.wf(),
        ensures
            requests@.len() == self.descriptor_seq().len(),
            forall|i: int|
                0 <= i < requests@.len() ==> #[trigger] requests@[i] == define_request(
                    self.descriptor_seq(),
                    self.rows(),
                    i,
                ),
    {
        let ghost sizes = descriptor_sizes(self.descriptors@);
        let ghost rows = self.prefetch_rows as int;
        let columns_cnt = self.descriptors.len();
        let mut requests: Vec<DefineRequest> = Vec::new();
        let mut offset: usize = 2 * self.indicators_size;
        let mut offset_i: usize = 0;
        let mut i: usize = 0;
        proof {
            lemma_result_area_bounds(sizes, rows);
            assert(sizes.take(0).len() == 0);
            assert(offset_of(sizes, 0) * rows == 0);
        }
        while i < columns_cnt
            invariant
                self.wf(),
                i <= columns_cnt,
                columns_cnt == self.descriptors@.len(),
                sizes == descriptor_sizes(self.descriptors@),
                rows == self.prefetch_rows,
                offset == 2 * result_indicators_size(sizes, rows) + offset_of(sizes, i as int)
                    * rows,
                offset_i == 2 * (i * rows),
                requests@.len() == i,
                forall|k: int|
                    0 <= k < i ==> #[trigger] requests@[k] == define_request(
                        self.descriptors@,
                        rows,
                        k,
                    ),
            decreases columns_cnt - i,
        {
            let d = &self.descriptors[i];
            proof {
                lemma_cell_in_area(sizes, rows, i as int, 0);
                lemma_result_area_bounds(sizes, rows);
                assert((i + 1) * rows == i * rows + rows) by (nonlinear_arith);
                assert((i + 1) * rows <= columns_cnt * rows) by (nonlinear_arith)
                    requires
                        i + 1 <= columns_cnt,
                        0 <= rows,
                ;
                assert(columns_cnt * rows * 2 == 2 * (columns_cnt * rows)) by (nonlinear_arith);
            }
            requests.push(
                DefineRequest {
                    position: (i + 1) as u32,
                    dtype: d.dtype,
                    size: d.size,
                    value_offset: offset,
                    indicator_offset: offset_i,
                    length_offset: self.indicators_size + offset_i,
                },
            );
            offset = offset + d.size * self.prefetch_rows;
            offset_i = offset_i + 2 * self.prefetch_rows;
            i = i + 1;
        }
        requests
    }

    /// Reads the row at `index` of the current batch out of the area: an
    /// owned copy of every cell, in the columns' order.
    pub fn get_result(&self, index: usize) -> (row: ResultSet)
        requires
            self.wf(),
            index < self.rows(),
        ensures
            row@.len() == self.descriptor_seq().len(),
            row_view(row@) == row_at(
                self.area(),
                descriptor_sizes(self.descriptor_seq()),
                self.rows(),
                index as int,
            ),
    {
        let ghost sizes = descriptor_sizes(self.descriptors@);
        let ghost rows = self.prefetch_rows as int;
        let columns_cnt = self.descriptors.len();
        let mut result: ResultSet = Vec::new();
        if columns_cnt == 0 {
            proof {
                assert(row_view(result@) =~= row_at(self.buffer@, sizes, rows, index as int));
            }
            return result;
        }
        proof {
            lemma_result_area_bounds(sizes, rows);
            lemma_cell_in_area(sizes, rows, 0, index as int);
            assert(sizes.take(0).len() == 0);
            assert(offset_of(sizes, 0) * rows == 0);
            assert(0 * rows == 0);
        }
        let mut v_offset: usize = 2 * self.indicators_size;
        let mut i_offset: usize = 2 * index;
        let mut i: usize = 0;
        while i < columns_cnt
            invariant
                self.wf(),
                index < rows,
                i <= columns_cnt,
                columns_cnt == self.descriptors@.len(),
                sizes == descriptor_sizes(self.descriptors@),
                rows == self.prefetch_rows,
                v_offset == 2 * result_indicators_size(sizes, rows) + offset_of(sizes, i as int)
                    * rows,
                i_offset == 2 * (i * rows + index),
                result@.len() == i,
                forall|k: int|
                    0 <= k < i ==> (#[trigger] result@[k])@ == cell_at(
                        self.buffer@,
                        sizes,
                        rows,
                        k,
                        index as int,
                    ),
            decreases columns_cnt - i,
        {
            let size = self.descriptors[i].size;
            proof {
                lemma_cell_in_area(sizes, rows, i as int, index as int);
                lemma_result_area_bounds(sizes, rows);
                assert((i + 1) * rows == i * rows + rows) by (nonlinear_arith);
                assert((i + 1) * rows <= columns_cnt * rows) by (nonlinear_arith)
                    requires
                        i + 1 <= columns_cnt,
                        0 <= rows,
                ;
                assert(columns_cnt * rows * 2 == 2 * (columns_cnt * rows)) by (nonlinear_arith);
                assert(size * index == index * size) by (nonlinear_arith);
                assert(size * self.prefetch_rows == size * rows);
            }
            let value_at = v_offset + size * index;
            let length_at = self.indicators_size + i_offset;
            let area = self.buffer.as_slice();
            let ghost indicator_bytes = self.buffer@.subrange(i_offset as int, i_offset + 2);
            let ghost length_bytes = self.buffer@.subrange(length_at as int, length_at + 2);
            let raw_indicator = u16_from_le_bytes(slice_subrange(area, i_offset, i_offset + 2));
            let row_indicator: i16 = #[verifier::truncate] (raw_indicator as i16);
            let len = u16_from_le_bytes(slice_subrange(area, length_at, length_at + 2));
            proof {
                assert(indicator_bytes.subrange(0, 2) =~= indicator_bytes);
                assert(length_bytes.subrange(0, 2) =~= length_bytes);
            }
            let value = if row_indicator >= 0 {
                let data = slice_to_vec(slice_subrange(area, value_at, value_at + size));
                ResultValue::Val { data, len }
            } else {
                ResultValue::Nil
            };
            result.push(value);
            v_offset = v_offset + size * self.prefetch_rows;
            i_offset = i_offset + 2 * self.prefetch_rows;
            i = i + 1;
        }
        proof {
            assert(row_view(result@) =~= row_at(self.buffer@, sizes, rows, index as int));
        }
        result
    }
}

/// The state of a row stream: the rows of a full batch, whether the server
/// has said that no batch follows, the rows of the batch at hand and how
/// many of them were handed out.
pub struct CursorView {
    pub prefetch_rows: int,
    pub done: bool,
    pub rows_in_batch: int,
    pub cursor: int,
}

/// What a row stream does next.
#[derive(Debug, Clone, Copy, PartialEq, Eq, Structural)]
pub enum IteratorStep {
    /// Hand out the row at this index of the batch at hand.
    Row(u32),
    /// The batch is used up: fetch the next one and report how it went.
    Fetch,
    /// The stream has ended.
    End,
}

impl CursorView {
    /// The batch at hand fits a full batch and the cursor stays within it.
    pub open spec fn wf(self) -> bool {
        &&& 1 <= self.prefetch_rows <= u32::MAX
        &&& 0 <= self.cursor <= self.rows_in_batch <= self.prefetch_rows
    }

    /// Rows of the batch at hand that were not handed out yet.
    pub open spec fn pending(self) -> int {
        self.rows_in_batch - self.cursor
    }

    /// The stream has ended: nothing is pending and no batch follows.
    pub open spec fn finished(self) -> bool {
        self.pending() == 0 && self.done
    }

    /// The state after the statement was executed and left `initial` rows
    /// in the area: a batch that is not full is the last one.
    pub open spec fn start(prefetch_rows: int, initial: int) -> CursorView {
        CursorView {
            prefetch_rows,
            done: initial < prefetch_rows,
            rows_in_batch: initial,
            cursor: 0,
        }
    }

    /// What the stream does next: a pending row is handed out; else the
    /// stream ends if no batch follows, and asks for a fetch if one may.
    pub open spec fn step(self) -> IteratorStep {
        if self.cursor < self.rows_in_batch {
            IteratorStep::Row(self.cursor as u32)
        } else if self.done {
            IteratorStep::End
        } else {
            IteratorStep::Fetch
        }
    }

    /// The state after the step: handing out a row moves the cursor on,
    /// the other steps change nothing.
    pub open spec fn after_step(self) -> CursorView {
        if self.cursor < self.rows_in_batch {
            CursorView { cursor: self.cursor + 1, ..self }
        } else {
            self
        }
    }

    /// The state after a fetch that ended with `code` and left
    /// `rows_fetched` rows in the area. A failed fetch ends the stream with
    /// nothing pending. Otherwise the rows fetched are the new batch, and it
    /// is the last one if the server said so, if a value was truncated or if
    /// the batch is not full.
    pub open spec fn after_fetch(self, code: i32, rows_fetched: int) -> CursorView {
        match fetch_status_of(code) {
            FetchStatus::Failed => CursorView { done: true, rows_in_batch: 0, cursor: 0, ..self },
            FetchStatus::Fetched => CursorView {
                done: rows_fetched < self.prefetch_rows,
                rows_in_batch: rows_fetched,
                cursor: 0,
                ..self
            },
            _ => CursorView { done: true, rows_in_batch: rows_fetched, cursor: 0, ..self },
        }
    }
}

/// The cursor of a row stream over the result area of a query.
pub struct ResultIterator {
    prefetch_rows: u32,
    done: bool,
    rows_fetched: u32,
    cursor_index: u32,
}

impl View for ResultIterator {
    type V = CursorView;

    closed spec fn view(&self) -> CursorView {
        CursorView {
            prefetch_rows: self.prefetch_rows as int,
            done: self.done,
            rows_in_batch: self.rows_fetched as int,
            cursor: self.cursor_index as int,
        }
    }
}

impl ResultIterator {
    /// The cursor after the statement was executed with batches of
    /// `prefetch_rows` rows and left `initial_prefetched` rows in the area.
    pub fn new(prefetch_rows: u32, initial_prefetched: u32) -> (iterator: ResultIterator)
        requires
            1 <= prefetch_rows,
            initial_prefetched <= prefetch_rows,
        ensures
            iterator@.wf(),
            iterator@ == CursorView::start(prefetch_rows as int, initial_prefetched as int),
    {
        ResultIterator {
            prefetch_rows,
            done: initial_prefetched < prefetch_rows,
            rows_fetched: initial_prefetched,
            cursor_index: 0,
        }
    }

    /// Decides what the stream does next, and moves the cursor on where a
    /// row is handed out.
    pub fn next_step(&mut self) -> (step: IteratorStep)
        requires
            old(self)@.wf(),
        ensures
            final(self)@.wf(),
            step == old(self)@.step(),
            final(self)@ == old(self)@.after_step(),
    {
        if self.cursor_index < self.rows_fetched {
            let index = self.cursor_index;
            self.cursor_index = self.cursor_index + 1;
            IteratorStep::Row(index)
        } else if self.done {
            IteratorStep::End
        } else {
            IteratorStep::Fetch
        }
    }

    /// Takes the outcome of a fetch: its status code and the rows that it
    /// left in the area. The status says what the caller owes: an error to
    /// hand out for `Failed`, a warning for `Truncated`.
    pub fn on_fetch(&mut self, code: i32, rows_fetched: u32) -> (status: FetchStatus)
        requires
            old(self)@.wf(),
            rows_fetched <= old(self)@.prefetch_rows,
        ensures
            final(self)@.wf(),
            status == fetch_status_of(code),
            final(self)@ == old(self)@.after_fetch(code, rows_fetched as int),
    {
        let status = classify_fetch(code);
        match status {
            FetchStatus::Failed => {
                self.done = true;
                self.rows_fetched = 0;
            },
            FetchStatus::Fetched => {
                self.done = rows_fetched < self.prefetch_rows;
                self.rows_fetched = rows_fetched;
            },
            _ => {
                self.done = true;
                self.rows_fetched = rows_fetched;
            },
        }
        self.cursor_index = 0;
        status
    }

    /// Whether the stream has ended.
    pub fn is_finished(&self) -> (finished: bool)
        ensures
            finished == self@.finished(),
    {
        self.done && self.cursor_index == self.rows_fetched
    }

    /// The rows of a full batch.
    pub fn prefetch_rows(&self) -> (rows: u32)
        ensures
            rows == self@.prefetch_rows,
    {
        self.prefetch_rows
    }
}

impl ResultProcessor {
    /// The cursor over this area after the statement was executed. Where
    /// the execution reported a full batch the area holds as many rows as a
    /// batch has; else it holds the rows that the statement reports as
    /// fetched.
    pub fn fetch_iter(&self, success: bool, last_fetched_rows: u32) -> (iterator: ResultIterator)
        requires
            self.wf(),
            !success ==> last_fetched_rows <= self.rows(),
        ensures
            iterator@.wf(),
            iterator@ == CursorView::start(
                self.rows(),
                if success {
                    self.rows()
                } else {
                    last_fetched_rows as int
                },
            ),
    {
        let rows = self.prefetch_rows as u32;
        let initial_prefetched = if success {
            rows
        } else {
            last_fetched_rows
        };
        ResultIterator::new(rows, initial_prefetched)
    }
}

/// How one fetch went: its status code and the rows that it left in the
/// area.
pub struct FetchReply {
    pub code: i32,
    pub rows: int,
}

impl CursorView {
    /// The state after `count` steps.
    pub open spec fn after_steps(self, count: nat) -> CursorView
        decreases count,
    {
        if count == 0 {
            self
        } else {
            self.after_step().after_steps((count - 1) as nat)
        }
    }

    /// The rows that the stream hands out from this state on, when its
    /// fetches go as the replies say, one reply per fetch.
    pub open spec fn rows_handed_out(self, replies: Seq<FetchReply>) -> int
        decreases replies.len(),
    {
        self.pending() + (if self.done || replies.len() == 0 {
            0
        } else {
            self.after_fetch(replies[0].code, replies[0].rows).rows_handed_out(
                replies.drop_first(),
            )
        })
    }

    /// The fetches that the stream makes from this state on, when they go
    /// as the replies say.
    pub open spec fn fetches_made(self, replies: Seq<FetchReply>) -> int
        decreases replies.len(),
    {
        if self.done || replies.len() == 0 {
            0
        } else {
            1 + self.after_fetch(replies[0].code, replies[0].rows).fetches_made(
                replies.drop_first(),
            )
        }
    }
}

/// The rows that the replies report, those of failed fetches left out.
pub open spec fn rows_received(replies: Seq<FetchReply>) -> int
    decreases replies.len(),
{
    if replies.len() == 0 {
        0
    } else {
        (if fetch_status_of(replies[0].code) == FetchStatus::Failed {
            0
        } else {
            replies[0].rows
        }) + rows_received(replies.drop_first())
    }
}

/// Every reply reports between no row and a full batch.
pub open spec fn replies_fit(replies: Seq<FetchReply>, prefetch_rows: int) -> bool {
    forall|i: int| 0 <= i < replies.len() ==> 0 <= (#[trigger] replies[i]).rows <= prefetch_rows
}

/// The stream hands out the pending rows of the batch at hand one by one,
/// in their order, and only then asks for a fetch or ends.
pub proof fn lemma_steps_hand_out_batch(state: CursorView, count: nat)
    requires
        state.wf(),
        count <= state.pending(),
    ensures
        state.after_steps(count) == (CursorView { cursor: state.cursor + count, ..state }),
        state.after_steps(count).wf(),
        count < state.pending() ==> state.after_steps(count).step() == IteratorStep::Row(
            (state.cursor + count) as u32,
        ),
        count == state.pending() ==> state.after_steps(count).step() == (if state.done {
            IteratorStep::End
        } else {
            IteratorStep::Fetch
        }),
        count == state.pending() ==> state.after_steps(count).after_step() == state.after_steps(
            count,
        ),
    decreases count,
{
    if count > 0 {
        lemma_steps_hand_out_batch(state.after_step(), (count - 1) as nat);
    }
}

/// A stream never hands out more rows than the server delivered: those of
/// the batch at hand and those of the fetches that did not fail. A failed
/// fetch adds no row.
pub proof fn lemma_rows_handed_out_bounded(state: CursorView, replies: Seq<FetchReply>)
    requires
        state.wf(),
        replies_fit(replies, state.prefetch_rows),
    ensures
        0 <= state.rows_handed_out(replies) <= state.pending() + rows_received(replies),
    decreases replies.len(),
{
    if !state.done && replies.len() > 0 {
        let next = state.after_fetch(replies[0].code, replies[0].rows);
        let rest = replies.drop_first();
        assert forall|i: int| 0 <= i < rest.len() implies 0 <= (#[trigger] rest[i]).rows
            <= next.prefetch_rows by {
            assert(rest[i] == replies[i + 1]);
        }
        lemma_rows_handed_out_bounded(next, rest);
    } else {
        lemma_rows_received_nonnegative(replies, state.prefetch_rows);
    }
}

/// The rows received are never negative.
pub proof fn lemma_rows_received_nonnegative(replies: Seq<FetchReply>, prefetch_rows: int)
    requires
        replies_fit(replies, prefetch_rows),
    ensures
        0 <= rows_received(replies),
    decreases replies.len(),
{
    if replies.len() > 0 {
        let rest = replies.drop_first();
        assert forall|i: int| 0 <= i < rest.len() implies 0 <= (#[trigger] rest[i]).rows
            <= prefetch_rows by {
            assert(rest[i] == replies[i + 1]);
        }
        lemma_rows_received_nonnegative(rest, prefetch_rows);
    }
}

/// After a failed fetch the stream has ended, whatever the server says
/// afterwards: no row is handed out and no fetch is made.
pub proof fn lemma_failed_fetch_ends_stream(
    state: CursorView,
    code: i32,
    rows: int,
    replies: Seq<FetchReply>,
)
    requires
        state.wf(),
        fetch_status_of(code) == FetchStatus::Failed,
    ensures
        state.after_fetch(code, rows).finished(),
        state.after_fetch(code, rows).step() == IteratorStep::End,
        state.after_fetch(code, rows).rows_handed_out(replies) == 0,
        state.after_fetch(code, rows).fetches_made(replies) == 0,
{
}

/// An empty result set: the stream ends at once, without a row and without
/// a fetch.
pub proof fn lemma_empty_result_set(prefetch_rows: int, replies: Seq<FetchReply>)
    requires
        1 <= prefetch_rows <= u32::MAX,
    ensures
        CursorView::start(prefetch_rows, 0).step() == IteratorStep::End,
        CursorView::start(prefetch_rows, 0).rows_handed_out(replies) == 0,
        CursorView::start(prefetch_rows, 0).fetches_made(replies) == 0,
{
}

/// A result set of exactly one full batch: the stream hands out the rows
/// of the batch, fetches once, learns that no data is left and ends.
pub proof fn lemma_exactly_one_batch(prefetch_rows: int, code: i32)
    requires
        1 <= prefetch_rows <= u32::MAX,
        fetch_status_of(code) == FetchStatus::EndOfData,
    ensures
        CursorView::start(prefetch_rows, prefetch_rows).rows_handed_out(
            seq![FetchReply { code, rows: 0 }],
        ) == prefetch_rows,
        CursorView::start(prefetch_rows, prefetch_rows).fetches_made(
            seq![FetchReply { code, rows: 0 }],
        ) == 1,
        CursorView::start(prefetch_rows, prefetch_rows).after_steps(
            prefetch_rows as nat,
        ).step() == IteratorStep::Fetch,
        CursorView::start(prefetch_rows, prefetch_rows).after_fetch(code, 0).step()
            == IteratorStep::End,
{
    let state = CursorView::start(prefetch_rows, prefetch_rows);
    let replies = seq![FetchReply { code, rows: 0 }];
    lemma_steps_hand_out_batch(state, prefetch_rows as nat);
    let next = state.after_fetch(code, 0);
    assert(replies.drop_first().len() == 0);
    assert(next.rows_handed_out(replies.drop_first()) == 0);
    assert(next.fetches_made(replies.drop_first()) == 0);
}

/// A result set of one row more than a full batch: the stream hands out
/// the batch, fetches once more, hands out the one row and ends without
/// another fetch.
pub proof fn lemma_one_row_beyond_batch(prefetch_rows: int, code: i32, replies: Seq<FetchReply>)
    requires
        2 <= prefetch_rows <= u32::MAX,
        fetch_status_of(code) != FetchStatus::Failed,
        replies.len() >= 1,
        replies[0] == (FetchReply { code, rows: 1 }),
    ensures
        CursorView::start(prefetch_rows, prefetch_rows).rows_handed_out(replies) == prefetch_rows
            + 1,
        CursorView::start(prefetch_rows, prefetch_rows).fetches_made(replies) == 1,
        CursorView::start(prefetch_rows, prefetch_rows).after_fetch(code, 1).step()
            == IteratorStep::Row(0),
        CursorView::start(prefetch_rows, prefetch_rows).after_fetch(code, 1).after_step().step()
            == IteratorStep::End,
{
    let state = CursorView::start(prefetch_rows, prefetch_rows);
    let next = state.after_fetch(code, 1);
    assert(next.done);
    assert(next.rows_handed_out(replies.drop_first()) == 1);
    assert(next.fetches_made(replies.drop_first()) == 0);
}

/// A fetch that truncated a value: the rows that it left are handed out
/// and the stream ends without an error and without another fetch.
pub proof fn lemma_truncation_ends_stream(state: CursorView, rows: int, replies: Seq<FetchReply>)
    requires
        state.wf(),
        0 <= rows <= state.prefetch_rows,
    ensures
        state.after_fetch(crate::error::ORA_TRUNCATED, rows).wf(),
        state.after_fetch(crate::error::ORA_TRUNCATED, rows).done,
        state.after_fetch(crate::error::ORA_TRUNCATED, rows).rows_handed_out(replies) == rows,
        state.after_fetch(crate::error::ORA_TRUNCATED, rows).fetches_made(replies) == 0,
{
}

} // verus!
