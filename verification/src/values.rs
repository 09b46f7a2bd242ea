//! The value codec: how each supported type is written into a parameter
//! slot and read out of a result cell.

use vstd::prelude::*;
use vstd::bytes::{
    spec_u16_from_le_bytes,
    spec_u16_to_le_bytes,
    spec_u32_from_le_bytes,
    spec_u32_to_le_bytes,
    spec_u64_from_le_bytes,
    spec_u64_to_le_bytes,
    u16_from_le_bytes,
    u16_to_le_bytes,
    u32_from_le_bytes,
    u32_to_le_bytes,
    u64_from_le_bytes,
    u64_to_le_bytes,
};
use vstd::slice::slice_subrange;
use crate::params::{ParamValue, SlotView, ValueProjector};
use crate::results::{cell_holds, CellView, FromResultValue, ResultValue};
use crate::types::{SqlDate, SqlDateTime, SqlFloat};
use chrono::{Datelike, Timelike};

verus! {

/// The cell that a slot gives when it is read as one: a NULL where the
/// indicator is negative, else the slot's bytes with the length written.
pub open spec fn cell_of(slot: SlotView) -> CellView {
    if slot.indicator < 0 {
        CellView::Null
    } else {
        CellView::Present { data: slot.data, len: slot.length as u16 }
    }
}

/// The 2 little-endian bytes of an `i16`.
pub open spec fn i16_bytes(x: i16) -> Seq<u8> {
    spec_u16_to_le_bytes((x as u16))
}

/// The `i16` that the first 2 bytes of a slot hold.
pub open spec fn i16_value(data: Seq<u8>) -> i16 {
    spec_u16_from_le_bytes(data.subrange(0, 2)) as i16
}

/// Reading back the bytes of an `i16` gives the number again, whatever
/// follows them in the slot.
pub proof fn lemma_i16_round_trip(x: i16, rest: Seq<u8>)
    ensures
        i16_bytes(x).len() == 2,
        i16_value(i16_bytes(x) + rest) == x,
{
    vstd::bytes::lemma_auto_spec_u16_to_from_le_bytes();
    assert((i16_bytes(x) + rest).subrange(0, 2) =~= i16_bytes(x));
    assert((((x as u16)) as i16) == x) by (bit_vector);
}

impl ValueProjector<i16> for i16 {
    open spec fn encoding(&self) -> Option<Seq<u8>> {
        Some(i16_bytes(*self))
    }

    fn project_value(&self, projection: &mut ParamValue) {
        let bytes = u16_to_le_bytes(#[verifier::truncate] (*self as u16));
        projection.project(bytes.as_slice());
    }
}

impl FromResultValue for i16 {
    open spec fn readable(cell: CellView) -> bool {
        cell_holds(cell, 2)
    }

    open spec fn decodes(cell: CellView, value: i16) -> bool {
        match cell {
            CellView::Present { data, len } => value == i16_value(data),
            CellView::Null => value == 0,
        }
    }

    fn can_read(cell: &ResultValue) -> (ok: bool) {
        cell.holds(2)
    }

    fn from_result(cell: &ResultValue) -> (value: i16) {
        match cell {
            ResultValue::Val { data, len } => {
                let raw = u16_from_le_bytes(slice_subrange(data.as_slice(), 0, 2));
                #[verifier::truncate] (raw as i16)
            },
            ResultValue::Nil => 0,
        }
    }
}

impl FromResultValue for Option<i16> {
    open spec fn readable(cell: CellView) -> bool {
        cell_holds(cell, 2)
    }

    open spec fn decodes(cell: CellView, value: Option<i16>) -> bool {
        match cell {
            CellView::Present { data, len } => value == Some(i16_value(data)),
            CellView::Null => value is None,
        }
    }

    fn can_read(cell: &ResultValue) -> (ok: bool) {
        cell.holds(2)
    }

    fn from_result(cell: &ResultValue) -> (value: Option<i16>) {
        match cell {
            ResultValue::Val { data, len } => {
                let raw = u16_from_le_bytes(slice_subrange(data.as_slice(), 0, 2));
                Some(#[verifier::truncate] (raw as i16))
            },
            ResultValue::Nil => None,
        }
    }
}

/// An `i16` that was written into a slot wide enough for it is read back
/// as it was written, also as an optional value; a NULL that was written is
/// read back as no value.
pub proof fn lemma_i16_written_then_read(
    value: i16,
    slot: SlotView,
    read: i16,
    read_optional: Option<i16>,
    read_null: Option<i16>,
)
    requires
        slot.wf(),
        slot.size >= 2,
        <i16 as FromResultValue>::decodes(cell_of(slot.store_value(value.encoding())), read),
        <Option<i16> as FromResultValue>::decodes(
            cell_of(slot.store_value(value.encoding())),
            read_optional,
        ),
        <Option<i16> as FromResultValue>::decodes(cell_of(slot.store_null()), read_null),
    ensures
        <i16 as FromResultValue>::readable(cell_of(slot.store_value(value.encoding()))),
        read == value,
        read_optional == Some(value),
        read_null is None,
{
    let rest = slot.data.subrange(2, slot.size as int);
    lemma_i16_round_trip(value, rest);
    assert(slot.store(i16_bytes(value)).data =~= i16_bytes(value) + rest);
}

/// The 2 little-endian bytes of an `u16`.
pub open spec fn u16_bytes(x: u16) -> Seq<u8> {
    spec_u16_to_le_bytes(x)
}

/// The `u16` that the first 2 bytes of a slot hold.
pub open spec fn u16_value(data: Seq<u8>) -> u16 {
    spec_u16_from_le_bytes(data.subrange(0, 2))
}

/// Reading back the bytes of an `u16` gives the number again, whatever
/// follows them in the slot.
pub proof fn lemma_u16_round_trip(x: u16, rest: Seq<u8>)
    ensures
        u16_bytes(x).len() == 2,
        u16_value(u16_bytes(x) + rest) == x,
{
    vstd::bytes::lemma_auto_spec_u16_to_from_le_bytes();
    assert((u16_bytes(x) + rest).subrange(0, 2) =~= u16_bytes(x));
}

impl ValueProjector<u16> for u16 {
    open spec fn encoding(&self) -> Option<Seq<u8>> {
        Some(u16_bytes(*self))
    }

    fn project_value(&self, projection: &mut ParamValue) {
        let bytes = u16_to_le_bytes(*self);
        projection.project(bytes.as_slice());
    }
}

impl FromResultValue for u16 {
    open spec fn readable(cell: CellView) -> bool {
        cell_holds(cell, 2)
    }

    open spec fn decodes(cell: CellView, value: u16) -> bool {
        match cell {
            CellView::Present { data, len } => value == u16_value(data),
            CellView::Null => value == 0,
        }
    }

    fn can_read(cell: &ResultValue) -> (ok: bool) {
        cell.holds(2)
    }

    fn from_result(cell: &ResultValue) -> (value: u16) {
        match cell {
            ResultValue::Val { data, len } => {
                let raw = u16_from_le_bytes(slice_subrange(data.as_slice(), 0, 2));
                raw
            },
            ResultValue::Nil => 0,
        }
    }
}

impl FromResultValue for Option<u16> {
    open spec fn readable(cell: CellView) -> bool {
        cell_holds(cell, 2)
    }

    open spec fn decodes(cell: CellView, value: Option<u16>) -> bool {
        match cell {
            CellView::Present { data, len } => value == Some(u16_value(data)),
            CellView::Null => value is None,
        }
    }

    fn can_read(cell: &ResultValue) -> (ok: bool) {
        cell.holds(2)
    }

    fn from_result(cell: &ResultValue) -> (value: Option<u16>) {
        match cell {
            ResultValue::Val { data, len } => {
                let raw = u16_from_le_bytes(slice_subrange(data.as_slice(), 0, 2));
                Some(raw)
            },
            ResultValue::Nil => None,
        }
    }
}

/// An `u16` that was written into a slot wide enough for it is read back
/// as it was written, also as an optional value; a NULL that was written is
/// read back as no value.
pub proof fn lemma_u16_written_then_read(
    value: u16,
    slot: SlotView,
    read: u16,
    read_optional: Option<u16>,
    read_null: Option<u16>,
)
    requires
        slot.wf(),
        slot.size >= 2,
        <u16 as FromResultValue>::decodes(cell_of(slot.store_value(value.encoding())), read),
        <Option<u16> as FromResultValue>::decodes(
            cell_of(slot.store_value(value.encoding())),
            read_optional,
        ),
        <Option<u16> as FromResultValue>::decodes(cell_of(slot.store_null()), read_null),
    ensures
        <u16 as FromResultValue>::readable(cell_of(slot.store_value(value.encoding()))),
        read == value,
        read_optional == Some(value),
        read_null is None,
{
    let rest = slot.data.subrange(2, slot.size as int);
    lemma_u16_round_trip(value, rest);
    assert(slot.store(u16_bytes(value)).data =~= u16_bytes(value) + rest);
}

/// The 4 little-endian bytes of an `i32`.
pub open spec fn i32_bytes(x: i32) -> Seq<u8> {
    spec_u32_to_le_bytes((x as u32))
}

/// The `i32` that the first 4 bytes of a slot hold.
pub open spec fn i32_value(data: Seq<u8>) -> i32 {
    spec_u32_from_le_bytes(data.subrange(0, 4)) as i32
}

/// Reading back the bytes of an `i32` gives the number again, whatever
/// follows them in the slot.
pub proof fn lemma_i32_round_trip(x: i32, rest: Seq<u8>)
    ensures
        i32_bytes(x).len() == 4,
        i32_value(i32_bytes(x) + rest) == x,
{
    vstd::bytes::lemma_auto_spec_u32_to_from_le_bytes();
    assert((i32_bytes(x) + rest).subrange(0, 4) =~= i32_bytes(x));
    assert((((x as u32)) as i32) == x) by (bit_vector);
}

impl ValueProjector<i32> for i32 {
    open spec fn encoding(&self) -> Option<Seq<u8>> {
        Some(i32_bytes(*self))
    }

    fn project_value(&self, projection: &mut ParamValue) {
        let bytes = u32_to_le_bytes(#[verifier::truncate] (*self as u32));
        projection.project(bytes.as_slice());
    }
}

impl FromResultValue for i32 {
    open spec fn readable(cell: CellView) -> bool {
        cell_holds(cell, 4)
    }

    open spec fn decodes(cell: CellView, value: i32) -> bool {
        match cell {
            CellView::Present { data, len } => value == i32_value(data),
            CellView::Null => value == 0,
        }
    }

    fn can_read(cell: &ResultValue) -> (ok: bool) {
        cell.holds(4)
    }

    fn from_result(cell: &ResultValue) -> (value: i32) {
        match cell {
            ResultValue::Val { data, len } => {
                let raw = u32_from_le_bytes(slice_subrange(data.as_slice(), 0, 4));
                #[verifier::truncate] (raw as i32)
            },
            ResultValue::Nil => 0,
        }
    }
}

impl FromResultValue for Option<i32> {
    open spec fn readable(cell: CellView) -> bool {
        cell_holds(cell, 4)
    }

    open spec fn decodes(cell: CellView, value: Option<i32>) -> bool {
        match cell {
            CellView::Present { data, len } => value == Some(i32_value(data)),
            CellView::Null => value is None,
        }
    }

    fn can_read(cell: &ResultValue) -> (ok: bool) {
        cell.holds(4)
    }

    fn from_result(cell: &ResultValue) -> (value: Option<i32>) {
        match cell {
            ResultValue::Val { data, len } => {
                let raw = u32_from_le_bytes(slice_subrange(data.as_slice(), 0, 4));
                Some(#[verifier::truncate] (raw as i32))
            },
            ResultValue::Nil => None,
        }
    }
}

/// An `i32` that was written into a slot wide enough for it is read back
/// as it was written, also as an optional value; a NULL that was written is
/// read back as no value.
pub proof fn lemma_i32_written_then_read(
    value: i32,
    slot: SlotView,
    read: i32,
    read_optional: Option<i32>,
    read_null: Option<i32>,
)
    requires
        slot.wf(),
        slot.size >= 4,
        <i32 as FromResultValue>::decodes(cell_of(slot.store_value(value.encoding())), read),
        <Option<i32> as FromResultValue>::decodes(
            cell_of(slot.store_value(value.encoding())),
            read_optional,
        ),
        <Option<i32> as FromResultValue>::decodes(cell_of(slot.store_null()), read_null),
    ensures
        <i32 as FromResultValue>::readable(cell_of(slot.store_value(value.encoding()))),
        read == value,
        read_optional == Some(value),
        read_null is None,
{
    let rest = slot.data.subrange(4, slot.size as int);
    lemma_i32_round_trip(value, rest);
    assert(slot.store(i32_bytes(value)).data =~= i32_bytes(value) + rest);
}

/// The 4 little-endian bytes of an `u32`.
pub open spec fn u32_bytes(x: u32) -> Seq<u8> {
    spec_u32_to_le_bytes(x)
}

/// The `u32` that the first 4 bytes of a slot hold.
pub open spec fn u32_value(data: Seq<u8>) -> u32 {
    spec_u32_from_le_bytes(data.subrange(0, 4))
}

/// Reading back the bytes of an `u32` gives the number again, whatever
/// follows them in the slot.
pub proof fn lemma_u32_round_trip(x: u32, rest: Seq<u8>)
    ensures
        u32_bytes(x).len() == 4,
        u32_value(u32_bytes(x) + rest) == x,
{
    vstd::bytes::lemma_auto_spec_u32_to_from_le_bytes();
    assert((u32_bytes(x) + rest).subrange(0, 4) =~= u32_bytes(x));
}

impl ValueProjector<u32> for u32 {
    open spec fn encoding(&self) -> Option<Seq<u8>> {
        Some(u32_bytes(*self))
    }

    fn project_value(&self, projection: &mut ParamValue) {
        let bytes = u32_to_le_bytes(*self);
        projection.project(bytes.as_slice());
    }
}

impl FromResultValue for u32 {
    open spec fn readable(cell: CellView) -> bool {
        cell_holds(cell, 4)
    }

    open spec fn decodes(cell: CellView, value: u32) -> bool {
        match cell {
            CellView::Present { data, len } => value == u32_value(data),
            CellView::Null => value == 0,
        }
    }

    fn can_read(cell: &ResultValue) -> (ok: bool) {
        cell.holds(4)
    }

    fn from_result(cell: &ResultValue) -> (value: u32) {
        match cell {
            ResultValue::Val { data, len } => {
                let raw = u32_from_le_bytes(slice_subrange(data.as_slice(), 0, 4));
                raw
            },
            ResultValue::Nil => 0,
        }
    }
}

impl FromResultValue for Option<u32> {
    open spec fn readable(cell: CellView) -> bool {
        cell_holds(cell, 4)
    }

    open spec fn decodes(cell: CellView, value: Option<u32>) -> bool {
        match cell {
            CellView::Present { data, len } => value == Some(u32_value(data)),
            CellView::Null => value is None,
        }
    }

    fn can_read(cell: &ResultValue) -> (ok: bool) {
        cell.holds(4)
    }

    fn from_result(cell: &ResultValue) -> (value: Option<u32>) {
        match cell {
            ResultValue::Val { data, len } => {
                let raw = u32_from_le_bytes(slice_subrange(data.as_slice(), 0, 4));
                Some(raw)
            },
            ResultValue::Nil => None,
        }
    }
}

/// An `u32` that was written into a slot wide enough for it is read back
/// as it was written, also as an optional value; a NULL that was written is
/// read back as no value.
pub proof fn lemma_u32_written_then_read(
    value: u32,
    slot: SlotView,
    read: u32,
    read_optional: Option<u32>,
    read_null: Option<u32>,
)
    requires
        slot.wf(),
        slot.size >= 4,
        <u32 as FromResultValue>::decodes(cell_of(slot.store_value(value.encoding())), read),
        <Option<u32> as FromResultValue>::decodes(
            cell_of(slot.store_value(value.encoding())),
            read_optional,
        ),
        <Option<u32> as FromResultValue>::decodes(cell_of(slot.store_null()), read_null),
    ensures
        <u32 as FromResultValue>::readable(cell_of(slot.store_value(value.encoding()))),
        read == value,
        read_optional == Some(value),
        read_null is None,
{
    let rest = slot.data.subrange(4, slot.size as int);
    lemma_u32_round_trip(value, rest);
    assert(slot.store(u32_bytes(value)).data =~= u32_bytes(value) + rest);
}

/// The 8 little-endian bytes of an `i64`.
pub open spec fn i64_bytes(x: i64) -> Seq<u8> {
    spec_u64_to_le_bytes((x as u64))
}

/// The `i64` that the first 8 bytes of a slot hold.
pub open spec fn i64_value(data: Seq<u8>) -> i64 {
    spec_u64_from_le_bytes(data.subrange(0, 8)) as i64
}

/// Reading back the bytes of an `i64` gives the number again, whatever
/// follows them in the slot.
pub proof fn lemma_i64_round_trip(x: i64, rest: Seq<u8>)
    ensures
        i64_bytes(x).len() == 8,
        i64_value(i64_bytes(x) + rest) == x,
{
    vstd::bytes::lemma_auto_spec_u64_to_from_le_bytes();
    assert((i64_bytes(x) + rest).subrange(0, 8) =~= i64_bytes(x));
    assert((((x as u64)) as i64) == x) by (bit_vector);
}

impl ValueProjector<i64> for i64 {
    open spec fn encoding(&self) -> Option<Seq<u8>> {
        Some(i64_bytes(*self))
    }

    fn project_value(&self, projection: &mut ParamValue) {
        let bytes = u64_to_le_bytes(#[verifier::truncate] (*self as u64));
        projection.project(bytes.as_slice());
    }
}

impl FromResultValue for i64 {
    open spec fn readable(cell: CellView) -> bool {
        cell_holds(cell, 8)
    }

    open spec fn decodes(cell: CellView, value: i64) -> bool {
        match cell {
            CellView::Present { data, len } => value == i64_value(data),
            CellView::Null => value == 0,
        }
    }

    fn can_read(cell: &ResultValue) -> (ok: bool) {
        cell.holds(8)
    }

    fn from_result(cell: &ResultValue) -> (value: i64) {
        match cell {
            ResultValue::Val { data, len } => {
                let raw = u64_from_le_bytes(slice_subrange(data.as_slice(), 0, 8));
                #[verifier::truncate] (raw as i64)
            },
            ResultValue::Nil => 0,
        }
    }
}

impl FromResultValue for Option<i64> {
    open spec fn readable(cell: CellView) -> bool {
        cell_holds(cell, 8)
    }

    open spec fn decodes(cell: CellView, value: Option<i64>) -> bool {
        match cell {
            CellView::Present { data, len } => value == Some(i64_value(data)),
            CellView::Null => value is None,
        }
    }

    fn can_read(cell: &ResultValue) -> (ok: bool) {
        cell.holds(8)
    }

    fn from_result(cell: &ResultValue) -> (value: Option<i64>) {
        match cell {
            ResultValue::Val { data, len } => {
                let raw = u64_from_le_bytes(slice_subrange(data.as_slice(), 0, 8));
                Some(#[verifier::truncate] (raw as i64))
            },
            ResultValue::Nil => None,
        }
    }
}

/// An `i64` that was written into a slot wide enough for it is read back
/// as it was written, also as an optional value; a NULL that was written is
/// read back as no value.
pub proof fn lemma_i64_written_then_read(
    value: i64,
    slot: SlotView,
    read: i64,
    read_optional: Option<i64>,
    read_null: Option<i64>,
)
    requires
        slot.wf(),
        slot.size >= 8,
        <i64 as FromResultValue>::decodes(cell_of(slot.store_value(value.encoding())), read),
        <Option<i64> as FromResultValue>::decodes(
            cell_of(slot.store_value(value.encoding())),
            read_optional,
        ),
        <Option<i64> as FromResultValue>::decodes(cell_of(slot.store_null()), read_null),
    ensures
        <i64 as FromResultValue>::readable(cell_of(slot.store_value(value.encoding()))),
        read == value,
        read_optional == Some(value),
        read_null is None,
{
    let rest = slot.data.subrange(8, slot.size as int);
    lemma_i64_round_trip(value, rest);
    assert(slot.store(i64_bytes(value)).data =~= i64_bytes(value) + rest);
}

/// The 8 little-endian bytes of an `u64`.
pub open spec fn u64_bytes(x: u64) -> Seq<u8> {
    spec_u64_to_le_bytes(x)
}

/// The `u64` that the first 8 bytes of a slot hold.
pub open spec fn u64_value(data: Seq<u8>) -> u64 {
    spec_u64_from_le_bytes(data.subrange(0, 8))
}

/// Reading back the bytes of an `u64` gives the number again, whatever
/// follows them in the slot.
pub proof fn lemma_u64_round_trip(x: u64, rest: Seq<u8>)
    ensures
        u64_bytes(x).len() == 8,
        u64_value(u64_bytes(x) + rest) == x,
{
    vstd::bytes::lemma_auto_spec_u64_to_from_le_bytes();
    assert((u64_bytes(x) + rest).subrange(0, 8) =~= u64_bytes(x));
}

impl ValueProjector<u64> for u64 {
    open spec fn encoding(&self) -> Option<Seq<u8>> {
        Some(u64_bytes(*self))
    }

    fn project_value(&self, projection: &mut ParamValue) {
        let bytes = u64_to_le_bytes(*self);
        projection.project(bytes.as_slice());
    }
}

impl FromResultValue for u64 {
    open spec fn readable(cell: CellView) -> bool {
        cell_holds(cell, 8)
    }

    open spec fn decodes(cell: CellView, value: u64) -> bool {
        match cell {
            CellView::Present { data, len } => value == u64_value(data),
            CellView::Null => value == 0,
        }
    }

    fn can_read(cell: &ResultValue) -> (ok: bool) {
        cell.holds(8)
    }

    fn from_result(cell: &ResultValue) -> (value: u64) {
        match cell {
            ResultValue::Val { data, len } => {
                let raw = u64_from_le_bytes(slice_subrange(data.as_slice(), 0, 8));
                raw
            },
            ResultValue::Nil => 0,
        }
    }
}

impl FromResultValue for Option<u64> {
    open spec fn readable(cell: CellView) -> bool {
        cell_holds(cell, 8)
    }

    open spec fn decodes(cell: CellView, value: Option<u64>) -> bool {
        match cell {
            CellView::Present { data, len } => value == Some(u64_value(data)),
            CellView::Null => value is None,
        }
    }

    fn can_read(cell: &ResultValue) -> (ok: bool) {
        cell.holds(8)
    }

    fn from_result(cell: &ResultValue) -> (value: Option<u64>) {
        match cell {
            ResultValue::Val { data, len } => {
                let raw = u64_from_le_bytes(slice_subrange(data.as_slice(), 0, 8));
                Some(raw)
            },
            ResultValue::Nil => None,
        }
    }
}

/// An `u64` that was written into a slot wide enough for it is read back
/// as it was written, also as an optional value; a NULL that was written is
/// read back as no value.
pub proof fn lemma_u64_written_then_read(
    value: u64,
    slot: SlotView,
    read: u64,
    read_optional: Option<u64>,
    read_null: Option<u64>,
)
    requires
        slot.wf(),
        slot.size >= 8,
        <u64 as FromResultValue>::decodes(cell_of(slot.store_value(value.encoding())), read),
        <Option<u64> as FromResultValue>::decodes(
            cell_of(slot.store_value(value.encoding())),
            read_optional,
        ),
        <Option<u64> as FromResultValue>::decodes(cell_of(slot.store_null()), read_null),
    ensures
        <u64 as FromResultValue>::readable(cell_of(slot.store_value(value.encoding()))),
        read == value,
        read_optional == Some(value),
        read_null is None,
{
    let rest = slot.data.subrange(8, slot.size as int);
    lemma_u64_round_trip(value, rest);
    assert(slot.store(u64_bytes(value)).data =~= u64_bytes(value) + rest);
}

/// The bytes of a boolean: the 16-bit integer 1 for `true`, 0 for `false`.
pub open spec fn bool_bytes(b: bool) -> Seq<u8> {
    u16_bytes(
        if b {
            1
        } else {
            0
        },
    )
}

/// The boolean that a slot holds: `false` for the integer 0, `true` for
/// every other.
pub open spec fn bool_value(data: Seq<u8>) -> bool {
    u16_value(data) != 0
}

/// Reading back the bytes of a boolean gives the boolean again.
pub proof fn lemma_bool_round_trip(b: bool, rest: Seq<u8>)
    ensures
        bool_bytes(b).len() == 2,
        bool_value(bool_bytes(b) + rest) == b,
{
    lemma_u16_round_trip(
        if b {
            1
        } else {
            0
        },
        rest,
    );
}

impl ValueProjector<bool> for bool {
    open spec fn encoding(&self) -> Option<Seq<u8>> {
        Some(bool_bytes(*self))
    }

    fn project_value(&self, projection: &mut ParamValue) {
        let val: u16 = if *self {
            1
        } else {
            0
        };
        let bytes = u16_to_le_bytes(val);
        projection.project(bytes.as_slice());
    }
}

impl FromResultValue for bool {
    open spec fn readable(cell: CellView) -> bool {
        cell_holds(cell, 2)
    }

    open spec fn decodes(cell: CellView, value: bool) -> bool {
        match cell {
            CellView::Present { data, len } => value == bool_value(data),
            CellView::Null => value == false,
        }
    }

    fn can_read(cell: &ResultValue) -> (ok: bool) {
        cell.holds(2)
    }

    fn from_result(cell: &ResultValue) -> (value: bool) {
        match cell {
            ResultValue::Val { data, len } => {
                let raw = u16_from_le_bytes(slice_subrange(data.as_slice(), 0, 2));
                raw != 0
            },
            ResultValue::Nil => false,
        }
    }
}

/// The text that a run of bytes reads as; bytes that are no UTF-8 are
/// replaced as `String::from_utf8_lossy` replaces them.
pub uninterp spec fn lossy_text(bytes: Seq<u8>) -> Seq<char>;

/// The text that a run of bytes reads as: what they encode where they are
/// well-formed UTF-8, and the text with replacements otherwise.
pub open spec fn text_of(bytes: Seq<u8>) -> Seq<char> {
    if vstd::utf8::valid_utf8(bytes) {
        vstd::utf8::decode_utf8(bytes)
    } else {
        lossy_text(bytes)
    }
}

/// `String::from_utf8_lossy`, made an owned string: well-formed UTF-8 comes
/// back as the text it encodes, anything else with replacement characters.
#[verifier::external_body]
fn text_from_bytes(bytes: &[u8]) -> (text: String)
    ensures
        vstd::utf8::valid_utf8(bytes@) ==> text@ == vstd::utf8::decode_utf8(bytes@),
        !vstd::utf8::valid_utf8(bytes@) ==> text@ == lossy_text(bytes@),
{
    String::from_utf8_lossy(bytes).into_owned()
}

/// The bytes that a string is bound as: its UTF-8 bytes, or NULL where it
/// is empty.
pub open spec fn text_encoding(text: Seq<char>) -> Option<Seq<u8>> {
    if text.len() == 0 {
        None
    } else {
        Some(vstd::utf8::encode_utf8(text))
    }
}

/// The bytes of a cell that belong to its text: as many as the reported
/// length says, and no more than the slot holds.
pub open spec fn text_bytes(data: Seq<u8>, len: u16) -> Seq<u8> {
    if len <= data.len() {
        data.subrange(0, len as int)
    } else {
        data
    }
}

/// The text that a cell reads as; a NULL reads as the empty text.
pub open spec fn text_value(cell: CellView) -> Seq<char> {
    match cell {
        CellView::Present { data, len } => text_of(text_bytes(data, len)),
        CellView::Null => Seq::empty(),
    }
}

/// Writes text into a slot: an empty text becomes a NULL.
fn project_text(text: &str, projection: &mut ParamValue)
    requires
        old(projection).wf(),
    ensures
        final(projection).wf(),
        final(projection)@ == old(projection)@.store_value(text_encoding(text@)),
{
    if text.is_empty() {
        projection.project_null();
    } else {
        projection.project(text.as_bytes());
    }
}

/// Reads the text of a present cell.
fn read_text(data: &Vec<u8>, len: u16) -> (text: String)
    ensures
        text@ == text_of(text_bytes(data@, len)),
{
    if len as usize <= data.len() {
        text_from_bytes(slice_subrange(data.as_slice(), 0, len as usize))
    } else {
        text_from_bytes(data.as_slice())
    }
}

impl ValueProjector<String> for String {
    open spec fn encoding(&self) -> Option<Seq<u8>> {
        text_encoding(self@)
    }

    fn project_value(&self, projection: &mut ParamValue) {
        project_text(self.as_str(), projection);
    }
}

impl<'a> ValueProjector<&'a str> for &'a str {
    open spec fn encoding(&self) -> Option<Seq<u8>> {
        text_encoding(self@)
    }

    fn project_value(&self, projection: &mut ParamValue) {
        project_text(*self, projection);
    }
}

impl FromResultValue for String {
    open spec fn readable(cell: CellView) -> bool {
        true
    }

    open spec fn decodes(cell: CellView, value: String) -> bool {
        value@ == text_value(cell)
    }

    fn can_read(cell: &ResultValue) -> (ok: bool) {
        true
    }

    fn from_result(cell: &ResultValue) -> (value: String) {
        match cell {
            ResultValue::Val { data, len } => read_text(data, *len),
            ResultValue::Nil => String::new(),
        }
    }
}

impl FromResultValue for Option<String> {
    open spec fn readable(cell: CellView) -> bool {
        true
    }

    open spec fn decodes(cell: CellView, value: Option<String>) -> bool {
        match cell {
            CellView::Present { data, len } => value is Some && value->Some_0@ == text_value(cell),
            CellView::Null => value is None,
        }
    }

    fn can_read(cell: &ResultValue) -> (ok: bool) {
        true
    }

    fn from_result(cell: &ResultValue) -> (value: Option<String>) {
        match cell {
            ResultValue::Val { data, len } => Some(read_text(data, *len)),
            ResultValue::Nil => None,
        }
    }
}

/// A text that fits its slot is read back as it was written.
pub proof fn lemma_text_round_trip(text: Seq<char>, rest: Seq<u8>)
    requires
        0 < vstd::utf8::encode_utf8(text).len() <= u16::MAX,
    ensures
        text_value(
            CellView::Present {
                data: vstd::utf8::encode_utf8(text) + rest,
                len: vstd::utf8::encode_utf8(text).len() as u16,
            },
        ) == text,
{
    let bytes = vstd::utf8::encode_utf8(text);
    assert(text_bytes(bytes + rest, bytes.len() as u16) =~= bytes);
    vstd::utf8::encode_utf8_valid_utf8(text);
    vstd::utf8::encode_utf8_decode_utf8(text);
}

/// The century of a year, rounded towards zero.
pub open spec fn century_of(year: i32) -> int {
    if year >= 0 {
        (year as int) / 100
    } else {
        -((-(year as int)) / 100)
    }
}

/// The year within its century, with the sign of the year.
pub open spec fn year_of_century(year: i32) -> int {
    if year >= 0 {
        (year as int) % 100
    } else {
        -((-(year as int)) % 100)
    }
}

/// The seven bytes of a date-time: century and year of century, each in
/// excess 100, then month and day, then hour, minute and second, each in
/// excess 1.
pub open spec fn datetime_bytes(value: SqlDateTime) -> Seq<u8> {
    seq![
        (century_of(value.year) + 100) as u8,
        (year_of_century(value.year) + 100) as u8,
        value.month,
        value.day,
        (value.hour + 1) as u8,
        (value.minute + 1) as u8,
        (value.second + 1) as u8,
    ]
}

/// The seven bytes of a date: those of its midnight.
pub open spec fn date_bytes(value: SqlDate) -> Seq<u8> {
    datetime_bytes(
        SqlDateTime {
            year: value.year,
            month: value.month,
            day: value.day,
            hour: 0,
            minute: 0,
            second: 0,
        },
    )
}

/// The date that the first four bytes of a slot hold; the clock bytes are
/// not read.
pub open spec fn date_value(data: Seq<u8>) -> SqlDate {
    SqlDate {
        year: ((data[0] - 100) * 100 + (data[1] - 100)) as i32,
        month: data[2],
        day: data[3],
    }
}

/// The date-time that the first seven bytes of a slot hold.
pub open spec fn datetime_value(data: Seq<u8>) -> SqlDateTime {
    SqlDateTime {
        year: ((data[0] - 100) * 100 + (data[1] - 100)) as i32,
        month: data[2],
        day: data[3],
        hour: (data[4] - 1) as u8,
        minute: (data[5] - 1) as u8,
        second: (data[6] - 1) as u8,
    }
}

/// Whether a slot holds seven bytes whose clock fields are in excess 1.
pub open spec fn datetime_readable(cell: CellView) -> bool {
    match cell {
        CellView::Present { data, len } => data.len() >= 7 && data[4] >= 1 && data[5] >= 1
            && data[6] >= 1,
        CellView::Null => true,
    }
}

impl SqlDate {
    /// Whether the fields lie in the ranges of the calendar: a year of at
    /// most four digits, a month from 1 to 12 and a day from 1 to 31.
    pub open spec fn in_range(self) -> bool {
        &&& -9999 <= self.year <= 9999
        &&& 1 <= self.month <= 12
        &&& 1 <= self.day <= 31
    }

    pub fn is_in_range(&self) -> (ok: bool)
        ensures
            ok == self.in_range(),
    {
        -9999 <= self.year && self.year <= 9999 && 1 <= self.month && self.month <= 12 && 1
            <= self.day && self.day <= 31
    }
}

impl SqlDateTime {
    /// Whether the fields lie in the ranges of the calendar and the clock.
    pub open spec fn in_range(self) -> bool {
        &&& -9999 <= self.year <= 9999
        &&& 1 <= self.month <= 12
        &&& 1 <= self.day <= 31
        &&& self.hour <= 23
        &&& self.minute <= 59
        &&& self.second <= 59
    }

    pub fn is_in_range(&self) -> (ok: bool)
        ensures
            ok == self.in_range(),
    {
        -9999 <= self.year && self.year <= 9999 && 1 <= self.month && self.month <= 12 && 1
            <= self.day && self.day <= 31 && self.hour <= 23 && self.minute <= 59 && self.second
            <= 59
    }

    /// The date of this date-time.
    pub fn date(&self) -> (date: SqlDate)
        ensures
            date == (SqlDate { year: self.year, month: self.month, day: self.day }),
    {
        SqlDate { year: self.year, month: self.month, day: self.day }
    }
}

/// Reading back the bytes of a date-time in range gives it again.
pub proof fn lemma_datetime_round_trip(value: SqlDateTime, rest: Seq<u8>)
    requires
        value.in_range(),
    ensures
        datetime_bytes(value).len() == 7,
        datetime_readable(CellView::Present { data: datetime_bytes(value) + rest, len: 7 }),
        datetime_value(datetime_bytes(value) + rest) == value,
{
    let data = datetime_bytes(value) + rest;
    let c = century_of(value.year);
    let y = year_of_century(value.year);
    assert(-99 <= c <= 99 && -99 <= y <= 99 && c * 100 + y == value.year) by {
        if value.year >= 0 {
            vstd::arithmetic::div_mod::lemma_fundamental_div_mod(value.year as int, 100);
        } else {
            vstd::arithmetic::div_mod::lemma_fundamental_div_mod(-(value.year as int), 100);
        }
    }
    assert(data[0] == c + 100);
    assert(data[1] == y + 100);
    assert(data[4] == value.hour + 1);
    assert(data[5] == value.minute + 1);
    assert(data[6] == value.second + 1);
}

/// Reading back the bytes of a date in range gives it again.
pub proof fn lemma_date_round_trip(value: SqlDate, rest: Seq<u8>)
    requires
        value.in_range(),
    ensures
        date_bytes(value).len() == 7,
        date_value(date_bytes(value) + rest) == value,
{
    lemma_datetime_round_trip(
        SqlDateTime {
            year: value.year,
            month: value.month,
            day: value.day,
            hour: 0,
            minute: 0,
            second: 0,
        },
        rest,
    );
}

/// Builds the seven bytes of a date-time.
fn encode_datetime(value: &SqlDateTime) -> (bytes: Vec<u8>)
    ensures
        bytes@ == datetime_bytes(*value),
{
    let year: i64 = value.year as i64;
    let magnitude: i64 = if year >= 0 {
        year
    } else {
        -year
    };
    let century: i64 = if year >= 0 {
        magnitude / 100
    } else {
        -(magnitude / 100)
    };
    let in_century: i64 = if year >= 0 {
        magnitude % 100
    } else {
        -(magnitude % 100)
    };
    let bytes = vec![
        #[verifier::truncate] ((century + 100) as u8),
        #[verifier::truncate] ((in_century + 100) as u8),
        value.month,
        value.day,
        #[verifier::truncate] ((value.hour as u16 + 1) as u8),
        #[verifier::truncate] ((value.minute as u16 + 1) as u8),
        #[verifier::truncate] ((value.second as u16 + 1) as u8),
    ];
    assert(bytes@ =~= datetime_bytes(*value));
    bytes
}

/// `chrono::Local::now`, read field by field: the current local date and
/// time, with the month, the day and the clock in the ranges that chrono
/// documents for them.
#[verifier::external_body]
fn local_now() -> (now: SqlDateTime)
    ensures
        1 <= now.month <= 12,
        1 <= now.day <= 31,
        now.hour <= 23,
        now.minute <= 59,
        now.second <= 59,
{
    let t = chrono::Local::now();
    SqlDateTime {
        year: t.year(),
        month: t.month() as u8,
        day: t.day() as u8,
        hour: t.hour() as u8,
        minute: t.minute() as u8,
        second: t.second() as u8,
    }
}

impl ValueProjector<SqlDate> for SqlDate {
    open spec fn encoding(&self) -> Option<Seq<u8>> {
        Some(date_bytes(*self))
    }

    fn project_value(&self, projection: &mut ParamValue) {
        let midnight = SqlDateTime {
            year: self.year,
            month: self.month,
            day: self.day,
            hour: 0,
            minute: 0,
            second: 0,
        };
        let bytes = encode_datetime(&midnight);
        projection.project(bytes.as_slice());
    }
}

impl ValueProjector<SqlDateTime> for SqlDateTime {
    open spec fn encoding(&self) -> Option<Seq<u8>> {
        Some(datetime_bytes(*self))
    }

    fn project_value(&self, projection: &mut ParamValue) {
        let bytes = encode_datetime(self);
        projection.project(bytes.as_slice());
    }
}

/// Reads the date of a present cell of at least four bytes.
fn read_date(data: &Vec<u8>) -> (value: SqlDate)
    requires
        data@.len() >= 4,
    ensures
        value == date_value(data@),
{
    let year: i32 = (data[0] as i32 - 100) * 100 + (data[1] as i32 - 100);
    SqlDate { year, month: data[2], day: data[3] }
}

/// Reads the date-time of a present cell of at least seven bytes.
fn read_datetime(data: &Vec<u8>) -> (value: SqlDateTime)
    requires
        datetime_readable(CellView::Present { data: data@, len: 7 }),
    ensures
        value == datetime_value(data@),
{
    let year: i32 = (data[0] as i32 - 100) * 100 + (data[1] as i32 - 100);
    SqlDateTime {
        year,
        month: data[2],
        day: data[3],
        hour: data[4] - 1,
        minute: data[5] - 1,
        second: data[6] - 1,
    }
}

impl FromResultValue for SqlDate {
    open spec fn readable(cell: CellView) -> bool {
        cell_holds(cell, 7)
    }

    /// A NULL reads as the current local date, of which only the ranges of
    /// its fields are known.
    open spec fn decodes(cell: CellView, value: SqlDate) -> bool {
        match cell {
            CellView::Present { data, len } => value == date_value(data),
            CellView::Null => 1 <= value.month <= 12 && 1 <= value.day <= 31,
        }
    }

    fn can_read(cell: &ResultValue) -> (ok: bool) {
        cell.holds(7)
    }

    fn from_result(cell: &ResultValue) -> (value: SqlDate) {
        match cell {
            ResultValue::Val { data, len } => read_date(data),
            ResultValue::Nil => local_now().date(),
        }
    }
}

impl FromResultValue for Option<SqlDate> {
    open spec fn readable(cell: CellView) -> bool {
        cell_holds(cell, 7)
    }

    open spec fn decodes(cell: CellView, value: Option<SqlDate>) -> bool {
        match cell {
            CellView::Present { data, len } => value == Some(date_value(data)),
            CellView::Null => value is None,
        }
    }

    fn can_read(cell: &ResultValue) -> (ok: bool) {
        cell.holds(7)
    }

    fn from_result(cell: &ResultValue) -> (value: Option<SqlDate>) {
        match cell {
            ResultValue::Val { data, len } => Some(read_date(data)),
            ResultValue::Nil => None,
        }
    }
}

/// Whether a cell can be read as a date-time.
fn can_read_datetime(cell: &ResultValue) -> (ok: bool)
    ensures
        ok == datetime_readable(cell@),
{
    match cell {
        ResultValue::Val { data, len } => data.len() >= 7 && data[4] >= 1 && data[5] >= 1
            && data[6] >= 1,
        ResultValue::Nil => true,
    }
}

impl FromResultValue for SqlDateTime {
    open spec fn readable(cell: CellView) -> bool {
        datetime_readable(cell)
    }

    /// A NULL reads as the current local time, of which only the ranges of
    /// its fields are known.
    open spec fn decodes(cell: CellView, value: SqlDateTime) -> bool {
        match cell {
            CellView::Present { data, len } => value == datetime_value(data),
            CellView::Null => 1 <= value.month <= 12 && 1 <= value.day <= 31 && value.hour <= 23
                && value.minute <= 59 && value.second <= 59,
        }
    }

    fn can_read(cell: &ResultValue) -> (ok: bool) {
        can_read_datetime(cell)
    }

    fn from_result(cell: &ResultValue) -> (value: SqlDateTime) {
        match cell {
            ResultValue::Val { data, len } => read_datetime(data),
            ResultValue::Nil => local_now(),
        }
    }
}

impl FromResultValue for Option<SqlDateTime> {
    open spec fn readable(cell: CellView) -> bool {
        datetime_readable(cell)
    }

    open spec fn decodes(cell: CellView, value: Option<SqlDateTime>) -> bool {
        match cell {
            CellView::Present { data, len } => value == Some(datetime_value(data)),
            CellView::Null => value is None,
        }
    }

    fn can_read(cell: &ResultValue) -> (ok: bool) {
        can_read_datetime(cell)
    }

    fn from_result(cell: &ResultValue) -> (value: Option<SqlDateTime>) {
        match cell {
            ResultValue::Val { data, len } => Some(read_datetime(data)),
            ResultValue::Nil => None,
        }
    }
}

impl ValueProjector<SqlFloat> for SqlFloat {
    open spec fn encoding(&self) -> Option<Seq<u8>> {
        Some(u64_bytes(self.bits))
    }

    fn project_value(&self, projection: &mut ParamValue) {
        self.bits.project_value(projection);
    }
}

impl FromResultValue for SqlFloat {
    open spec fn readable(cell: CellView) -> bool {
        cell_holds(cell, 8)
    }

    /// A NULL reads as the number whose bits are all zero, which is zero.
    open spec fn decodes(cell: CellView, value: SqlFloat) -> bool {
        match cell {
            CellView::Present { data, len } => value.bits == u64_value(data),
            CellView::Null => value.bits == 0,
        }
    }

    fn can_read(cell: &ResultValue) -> (ok: bool) {
        cell.holds(8)
    }

    fn from_result(cell: &ResultValue) -> (value: SqlFloat) {
        SqlFloat { bits: u64::from_result(cell) }
    }
}

impl FromResultValue for Option<SqlFloat> {
    open spec fn readable(cell: CellView) -> bool {
        cell_holds(cell, 8)
    }

    open spec fn decodes(cell: CellView, value: Option<SqlFloat>) -> bool {
        match cell {
            CellView::Present { data, len } => value == Some(SqlFloat { bits: u64_value(data) }),
            CellView::Null => value is None,
        }
    }

    fn can_read(cell: &ResultValue) -> (ok: bool) {
        cell.holds(8)
    }

    fn from_result(cell: &ResultValue) -> (value: Option<SqlFloat>) {
        match <Option<u64>>::from_result(cell) {
            Some(bits) => Some(SqlFloat { bits }),
            None => None,
        }
    }
}

/// A boolean that was written into a slot wide enough for it is read back
/// as it was written.
pub proof fn lemma_bool_written_then_read(value: bool, slot: SlotView, read: bool)
    requires
        slot.wf(),
        slot.size >= 2,
        <bool as FromResultValue>::decodes(cell_of(slot.store_value(value.encoding())), read),
    ensures
        <bool as FromResultValue>::readable(cell_of(slot.store_value(value.encoding()))),
        read == value,
{
    let rest = slot.data.subrange(2, slot.size as int);
    lemma_bool_round_trip(value, rest);
    assert(slot.store(bool_bytes(value)).data =~= bool_bytes(value) + rest);
}

/// A text that was written into a slot wide enough for it is read back as
/// it was written; the empty text travels as a NULL and is read back as the
/// empty text.
pub proof fn lemma_text_written_then_read(value: String, slot: SlotView, read: String)
    requires
        slot.wf(),
        vstd::utf8::encode_utf8(value@).len() <= slot.size,
        vstd::utf8::encode_utf8(value@).len() <= u16::MAX,
        <String as FromResultValue>::decodes(cell_of(slot.store_value(value.encoding())), read),
    ensures
        read@ == value@,
{
    let bytes = vstd::utf8::encode_utf8(value@);
    if value@.len() > 0 {
        let rest = slot.data.subrange(bytes.len() as int, slot.size as int);
        assert(slot.store(bytes).data =~= bytes + rest);
        vstd::utf8::encode_utf8_first_scalar(value@);
        assert(bytes.len() > 0) by {
            vstd::utf8::encode_utf8_valid_utf8(value@);
            vstd::utf8::encode_utf8_decode_utf8(value@);
            if bytes.len() == 0 {
                assert(vstd::utf8::decode_utf8(bytes).len() == 0);
            }
        }
        lemma_text_round_trip(value@, rest);
    } else {
        assert(value@ =~= Seq::<char>::empty());
    }
}

/// A date or a date-time in range that was written into a slot wide enough
/// for it is read back as it was written; a NULL that was written is read
/// back as no value.
pub proof fn lemma_date_written_then_read(
    date: SqlDate,
    time: SqlDateTime,
    slot: SlotView,
    read_date: SqlDate,
    read_time: SqlDateTime,
    read_null: Option<SqlDateTime>,
)
    requires
        slot.wf(),
        slot.size >= 7,
        date.in_range(),
        time.in_range(),
        <SqlDate as FromResultValue>::decodes(cell_of(slot.store_value(date.encoding())), read_date),
        <SqlDateTime as FromResultValue>::decodes(
            cell_of(slot.store_value(time.encoding())),
            read_time,
        ),
        <Option<SqlDateTime> as FromResultValue>::decodes(cell_of(slot.store_null()), read_null),
    ensures
        <SqlDate as FromResultValue>::readable(cell_of(slot.store_value(date.encoding()))),
        <SqlDateTime as FromResultValue>::readable(cell_of(slot.store_value(time.encoding()))),
        read_date == date,
        read_time == time,
        read_null is None,
{
    let rest = slot.data.subrange(7, slot.size as int);
    lemma_date_round_trip(date, rest);
    lemma_datetime_round_trip(time, rest);
    assert(slot.store(date_bytes(date)).data =~= date_bytes(date) + rest);
    assert(slot.store(datetime_bytes(time)).data =~= datetime_bytes(time) + rest);
}

/// An optional value is written like the value; no value is written as a
/// NULL, which changes the indicator alone.
impl<T: ValueProjector<T>> ValueProjector<Option<T>> for Option<T> {
    open spec fn encoding(&self) -> Option<Seq<u8>> {
        match self {
            Some(value) => value.encoding(),
            None => None,
        }
    }

    fn project_value(&self, projection: &mut ParamValue) {
        match self {
            Some(value) => value.project_value(projection),
            None => projection.project_null(),
        }
    }
}

} // verus!
