//! Parameter slots, the members that describe them and the traits through
//! which a value is written into them.

use vstd::prelude::*;
use crate::error::{OracleError, OracleResult, OCI_ERROR};
use crate::memory::{
    align_checked,
    aligned_size,
    lemma_aligned_size_bounds,
    lemma_offset_of_monotonic,
    lemma_offset_of_step,
    lemma_total_size_nonnegative,
    max_area_size,
    offset_of,
    total_size,
};
use crate::types::TypeDescriptor;
use crate::values::{i16_bytes, u32_bytes};
use vstd::bytes::{u16_to_le_bytes, u32_to_le_bytes};

verus! {

/// Indicator of a value that is present.
pub const INDICATOR_PRESENT: i16 = 0;

/// Indicator of a NULL.
pub const INDICATOR_NULL: i16 = -1;

/// What one parameter slot holds: its value bytes, its indicator, the
/// length written and its fixed capacity.
pub struct SlotView {
    pub data: Seq<u8>,
    pub indicator: i16,
    pub length: u32,
    pub size: usize,
}

impl SlotView {
    /// The value area spans the whole capacity and the length stays within it.
    pub open spec fn wf(self) -> bool {
        &&& self.data.len() == self.size
        &&& self.length <= self.size
        &&& self.size <= u32::MAX
    }

    /// How many bytes of `written` bytes fit the slot.
    pub open spec fn stored_len(self, written: int) -> int {
        if written <= self.size {
            written
        } else {
            self.size as int
        }
    }

    /// The slot after a present value of the given bytes was written: the
    /// bytes that fit replace the front of the value area, the indicator
    /// says present and the length is the count of bytes kept.
    pub open spec fn store(self, bytes: Seq<u8>) -> SlotView {
        let n = self.stored_len(bytes.len() as int);
        SlotView {
            data: bytes.subrange(0, n) + self.data.subrange(n, self.size as int),
            indicator: INDICATOR_PRESENT,
            length: n as u32,
            size: self.size,
        }
    }

    /// The slot after a NULL was written: only the indicator changes.
    pub open spec fn store_null(self) -> SlotView {
        SlotView { indicator: INDICATOR_NULL, ..self }
    }

    /// The slot after an encoding was written, `None` standing for NULL.
    pub open spec fn store_value(self, encoding: Option<Seq<u8>>) -> SlotView {
        match encoding {
            Some(bytes) => self.store(bytes),
            None => self.store_null(),
        }
    }

    /// The bytes of the value that the slot holds, if it holds one.
    pub open spec fn stored(self) -> Option<Seq<u8>> {
        if self.indicator < 0 {
            None
        } else {
            Some(self.data.subrange(0, self.length as int))
        }
    }
}

/// Writing a value that fits and reading the slot back gives the value.
pub proof fn lemma_store_then_stored(slot: SlotView, bytes: Seq<u8>)
    requires
        slot.wf(),
        bytes.len() <= slot.size,
    ensures
        slot.store(bytes).wf(),
        slot.store(bytes).stored() == Some(bytes),
        slot.store_null().wf(),
        slot.store_null().stored() == None::<Seq<u8>>,
{
    let after = slot.store(bytes);
    assert(after.data.subrange(0, after.length as int) =~= bytes);
}

/// Writing keeps a slot well formed and its capacity fixed, whatever the
/// length of the value.
pub proof fn lemma_store_keeps_capacity(slot: SlotView, encoding: Option<Seq<u8>>)
    requires
        slot.wf(),
    ensures
        slot.store_value(encoding).wf(),
        slot.store_value(encoding).size == slot.size,
        slot.store_value(encoding).length <= slot.size,
{
}

/// Writing the same value twice leaves a slot as writing it once does.
pub proof fn lemma_store_idempotent(slot: SlotView, encoding: Option<Seq<u8>>)
    requires
        slot.wf(),
    ensures
        slot.store_value(encoding).store_value(encoding) == slot.store_value(encoding),
{
    match encoding {
        Some(bytes) => {
            let once = slot.store(bytes);
            let twice = once.store(bytes);
            assert(twice.data =~= once.data);
        },
        None => {},
    }
}

/// One parameter slot of a prepared statement.
pub struct ParamValue {
    data: Vec<u8>,
    indicator: i16,
    length: u32,
    size: usize,
}

impl View for ParamValue {
    type V = SlotView;

    closed spec fn view(&self) -> SlotView {
        SlotView { data: self.data@, indicator: self.indicator, length: self.length, size: self.size }
    }
}

impl ParamValue {
    pub open spec fn wf(&self) -> bool {
        self@.wf()
    }

    /// An empty slot of the given capacity: zero bytes, present, length 0.
    pub fn new(size: usize) -> (slot: ParamValue)
        requires
            size <= u32::MAX,
        ensures
            slot.wf(),
            slot@ == (SlotView {
                data: Seq::new(size as nat, |i: int| 0u8),
                indicator: INDICATOR_PRESENT,
                length: 0,
                size,
            }),
    {
        let data: Vec<u8> = vec![0u8; size];
        assert(data@ =~= Seq::new(size as nat, |i: int| 0u8));
        ParamValue { data, indicator: INDICATOR_PRESENT, length: 0, size }
    }

    /// Writes a present value. Bytes beyond the capacity are dropped and the
    /// length never exceeds the capacity.
    pub fn project(&mut self, bytes: &[u8])
        requires
            old(self).wf(),
        ensures
            final(self).wf(),
            final(self)@ == old(self)@.store(bytes@),
    {
        let n: usize = if bytes.len() <= self.size {
            bytes.len()
        } else {
            self.size
        };
        let ghost before = self@;
        let mut i: usize = 0;
        while i < n
            invariant
                i <= n,
                n <= bytes@.len(),
                n <= self.size,
                self.data@.len() == self.size,
                self.size == before.size,
                self.size <= u32::MAX,
                before.data.len() == before.size,
                self.data@ =~= bytes@.subrange(0, i as int) + before.data.subrange(
                    i as int,
                    before.size as int,
                ),
            decreases n - i,
        {
            self.data.set(i, bytes[i]);
            i = i + 1;
        }
        self.indicator = INDICATOR_PRESENT;
        self.length = n as u32;
    }

    /// Writes a NULL: the indicator alone changes.
    pub fn project_null(&mut self)
        requires
            old(self).wf(),
        ensures
            final(self).wf(),
            final(self)@ == old(self)@.store_null(),
    {
        self.indicator = INDICATOR_NULL;
    }

    /// Writes an optional value: `None` becomes a NULL.
    pub fn project_optional(&mut self, bytes: Option<&[u8]>)
        requires
            old(self).wf(),
        ensures
            final(self).wf(),
            final(self)@ == old(self)@.store_value(
                match bytes {
                    Some(b) => Some(b@),
                    None => None,
                },
            ),
    {
        match bytes {
            None => {
                self.project_null();
            },
            Some(b) => {
                self.project(b);
            },
        }
    }

    pub fn indicator(&self) -> (indicator: i16)
        ensures
            indicator == self@.indicator,
    {
        self.indicator
    }

    pub fn length(&self) -> (length: u32)
        ensures
            length == self@.length,
    {
        self.length
    }

    pub fn size(&self) -> (size: usize)
        ensures
            size == self@.size,
    {
        self.size
    }

    pub fn data(&self) -> (data: &Vec<u8>)
        ensures
            data@ == self@.data,
    {
        &self.data
    }

    /// Whether the slot holds a NULL.
    pub fn is_null(&self) -> (null: bool)
        ensures
            null == (self@.stored() is None),
    {
        self.indicator < 0
    }
}

/// How a parameter is tied to its placeholder in the statement text.
#[derive(Debug, Clone, Copy)]
pub enum Identifier {
    /// By the placeholder's name.
    Named(&'static str),
    /// By its position, counted from one.
    Unnamed,
}

/// One parameter of a statement: its descriptor and how it is bound.
#[derive(Debug, Clone, Copy)]
pub struct Member {
    pub descriptor: TypeDescriptor,
    pub identifier: Identifier,
}

impl Member {
    pub fn new(descriptor: TypeDescriptor, identifier: Identifier) -> (member: Member)
        ensures
            member == (Member { descriptor, identifier }),
    {
        Member { descriptor, identifier }
    }
}

/// Whether the members are bound in one style: all by position, or all by
/// name.
pub open spec fn consistent_style(members: Seq<Member>) -> bool {
    ||| forall|i: int| 0 <= i < members.len() ==> (#[trigger] members[i]).identifier is Unnamed
    ||| forall|i: int| 0 <= i < members.len() ==> (#[trigger] members[i]).identifier is Named
}

/// Whether the members are bound in one style.
pub fn has_consistent_style(members: &Vec<Member>) -> (consistent: bool)
    ensures
        consistent == consistent_style(members@),
{
    let mut all_unnamed = true;
    let mut all_named = true;
    let mut i: usize = 0;
    while i < members.len()
        invariant
            i <= members@.len(),
            all_unnamed == (forall|k: int|
                0 <= k < i ==> (#[trigger] members@[k]).identifier is Unnamed),
            all_named == (forall|k: int| 0 <= k < i ==> (#[trigger] members@[k]).identifier is Named),
        decreases members@.len() - i,
    {
        match members[i].identifier {
            Identifier::Named(_) => {
                all_unnamed = false;
            },
            Identifier::Unnamed => {
                all_named = false;
            },
        }
        i = i + 1;
    }
    all_unnamed || all_named
}

/// The slots of a statement, one per member and in the members' order.
pub type ParamsProjection = Vec<ParamValue>;

/// Every slot of a projection is well formed.
pub open spec fn projection_wf(projection: Seq<ParamValue>) -> bool {
    forall|i: int| 0 <= i < projection.len() ==> (#[trigger] projection[i]).wf()
}

/// The projection after each slot received the encoding of its position:
/// the same number of slots, each with its capacity unchanged.
pub open spec fn projection_stores(
    before: Seq<ParamValue>,
    after: Seq<ParamValue>,
    encodings: Seq<Option<Seq<u8>>>,
) -> bool {
    &&& after.len() == before.len()
    &&& encodings.len() == before.len()
    &&& forall|i: int|
        0 <= i < before.len() ==> (#[trigger] after[i])@ == before[i]@.store_value(encodings[i])
}

/// Writes one value into one parameter slot.
pub trait ValueProjector<T> {
    /// The bytes that the value is written as, or `None` where it is bound
    /// as NULL.
    spec fn encoding(&self) -> Option<Seq<u8>>;

    fn project_value(&self, projection: &mut ParamValue)
        requires
            old(projection).wf(),
        ensures
            final(projection).wf(),
            final(projection)@ == old(projection)@.store_value(self.encoding()),
    ;
}

/// Describes the parameters of a statement and writes a parameter value
/// into their slots.
pub trait ParamsProvider<T> {
    /// The members, one per placeholder and in the order of the statement
    /// text.
    spec fn member_list(&self) -> Seq<Member>;

    /// The encoding that each slot receives for a parameter value.
    spec fn encodings(&self, params: &T) -> Seq<Option<Seq<u8>>>;

    fn members(&self) -> (members: Vec<Member>)
        ensures
            members@ == self.member_list(),
            consistent_style(members@),
    ;

    /// Writes `params` into the slots: every slot of the projection, and
    /// nothing beyond them.
    fn project_values(&self, params: &T, projection: &mut ParamsProjection)
        requires
            old(projection)@.len() == self.member_list().len(),
            projection_wf(old(projection)@),
        ensures
            projection_wf(final(projection)@),
            self.encodings(params).len() == self.member_list().len(),
            projection_stores(old(projection)@, final(projection)@, self.encodings(params)),
    ;
}

/// Alignment of the values part of an area.
pub const VALUES_ALIGN: usize = 128;

/// Alignment of the indicators part and of the lengths part of an area.
pub const INDICATORS_ALIGN: usize = 64;

/// Alignment of a whole area.
pub const AREA_ALIGN: usize = 256;

/// Bytes of one indicator.
pub const INDICATOR_SIZE: usize = 2;

/// Bytes of one length field of the parameter area.
pub const LENGTH_SIZE: usize = 4;

/// The sizes of the members' slots.
pub open spec fn member_sizes(members: Seq<Member>) -> Seq<usize> {
    members.map_values(|m: Member| m.descriptor.size)
}

/// Bytes of the values part: the sum of the slot sizes, aligned.
pub open spec fn param_values_size(sizes: Seq<usize>) -> int {
    aligned_size(total_size(sizes), VALUES_ALIGN as int)
}

/// Bytes of the indicators part: two per slot, aligned.
pub open spec fn param_indicators_size(sizes: Seq<usize>) -> int {
    aligned_size(INDICATOR_SIZE * sizes.len(), INDICATORS_ALIGN as int)
}

/// Bytes of the lengths part: four per slot, aligned.
pub open spec fn param_lengths_size(sizes: Seq<usize>) -> int {
    aligned_size(LENGTH_SIZE * sizes.len(), INDICATORS_ALIGN as int)
}

/// Bytes of the whole parameter area: the three parts together, aligned.
pub open spec fn param_area_size(sizes: Seq<usize>) -> int {
    aligned_size(
        param_indicators_size(sizes) + param_lengths_size(sizes) + param_values_size(sizes),
        AREA_ALIGN as int,
    )
}

/// Whether a parameter area can be laid out for slots of these sizes: every
/// size fits the 32-bit length field, every position fits 32 bits and the
/// area stays within the largest area size.
pub open spec fn params_fit(sizes: Seq<usize>) -> bool {
    &&& sizes.len() <= u32::MAX
    &&& forall|i: int| 0 <= i < sizes.len() ==> #[trigger] sizes[i] <= u32::MAX
    &&& param_area_size(sizes) <= max_area_size()
}

/// What binds one slot to its placeholder: how the placeholder is named,
/// its position counted from one, the slot's type code and size, and where
/// in the area its value, its indicator and its length stand.
#[derive(Debug, Clone, Copy)]
pub struct BindRequest {
    pub identifier: Identifier,
    pub position: u32,
    pub dtype: u16,
    pub size: usize,
    pub value_offset: usize,
    pub indicator_offset: usize,
    pub length_offset: usize,
}

/// The bind request of the member at `index`. The area is laid out as
/// indicators, then lengths, then values, each part in the members' order.
pub open spec fn bind_request(members: Seq<Member>, index: int) -> BindRequest {
    let sizes = member_sizes(members);
    BindRequest {
        identifier: members[index].identifier,
        position: (index + 1) as u32,
        dtype: members[index].descriptor.dtype,
        size: members[index].descriptor.size,
        value_offset: (param_indicators_size(sizes) + param_lengths_size(sizes) + offset_of(
            sizes,
            index,
        )) as usize,
        indicator_offset: (INDICATOR_SIZE * index) as usize,
        length_offset: (param_indicators_size(sizes) + LENGTH_SIZE * index) as usize,
    }
}

/// The parts of an area are at least as large as what they hold, so an
/// area fits only if the sum of its slot sizes and four bytes per slot do.
pub proof fn lemma_param_area_bounds(sizes: Seq<usize>)
    ensures
        total_size(sizes) <= param_values_size(sizes) <= param_area_size(sizes),
        LENGTH_SIZE * sizes.len() <= param_lengths_size(sizes) <= param_area_size(sizes),
        INDICATOR_SIZE * sizes.len() <= param_indicators_size(sizes),
        param_indicators_size(sizes) + param_lengths_size(sizes) + param_values_size(sizes)
            <= param_area_size(sizes),
{
    lemma_total_size_nonnegative(sizes);
    lemma_aligned_size_bounds(total_size(sizes), VALUES_ALIGN as int);
    lemma_aligned_size_bounds(INDICATOR_SIZE * sizes.len(), INDICATORS_ALIGN as int);
    lemma_aligned_size_bounds(LENGTH_SIZE * sizes.len(), INDICATORS_ALIGN as int);
    lemma_aligned_size_bounds(
        param_indicators_size(sizes) + param_lengths_size(sizes) + param_values_size(sizes),
        AREA_ALIGN as int,
    );
}

/// The area with `bytes` written over what stood at `offset`.
pub open spec fn write_at(area: Seq<u8>, offset: int, bytes: Seq<u8>) -> Seq<u8> {
    area.subrange(0, offset) + bytes + area.subrange(offset + bytes.len(), area.len() as int)
}

/// The area with one slot written into it: its indicator, its length and
/// its value bytes, each at the place that the slot's bind request names.
pub open spec fn slot_image(area: Seq<u8>, request: BindRequest, slot: SlotView) -> Seq<u8> {
    write_at(
        write_at(
            write_at(area, request.indicator_offset as int, i16_bytes(slot.indicator)),
            request.length_offset as int,
            u32_bytes(slot.length),
        ),
        request.value_offset as int,
        slot.data,
    )
}

/// The area that holds the first `count` slots, and zero bytes elsewhere.
pub open spec fn area_image(members: Seq<Member>, slots: Seq<ParamValue>, count: int) -> Seq<u8>
    decreases count,
{
    if count <= 0 {
        Seq::new(param_area_size(member_sizes(members)) as nat, |i: int| 0u8)
    } else {
        slot_image(
            area_image(members, slots, count - 1),
            bind_request(members, count - 1),
            slots[count - 1]@,
        )
    }
}

/// Writes `bytes` into the area at `offset`.
fn write_bytes(area: &mut Vec<u8>, offset: usize, bytes: &[u8])
    requires
        offset + bytes@.len() <= old(area)@.len(),
    ensures
        final(area)@ == write_at(old(area)@, offset as int, bytes@),
        final(area)@.len() == old(area)@.len(),
{
    let ghost before = area@;
    let n = bytes.len();
    let total = area.len();
    let mut i: usize = 0;
    while i < n
        invariant
            i <= n,
            n == bytes@.len(),
            total == before.len(),
            offset + n <= before.len(),
            area@.len() == before.len(),
            area@ =~= before.subrange(0, offset as int) + bytes@.subrange(0, i as int)
                + before.subrange(offset + i, before.len() as int),
        decreases n - i,
    {
        area.set(offset + i, bytes[i]);
        i = i + 1;
    }
    assert(bytes@.subrange(0, n as int) =~= bytes@);
}

/// Writing keeps the length of the area, puts the bytes where they were
/// written and leaves every range beside them as it was.
pub proof fn lemma_write_at(area: Seq<u8>, offset: int, bytes: Seq<u8>, from: int, to: int)
    requires
        0 <= offset,
        offset + bytes.len() <= area.len(),
        0 <= from <= to <= area.len(),
    ensures
        write_at(area, offset, bytes).len() == area.len(),
        write_at(area, offset, bytes).subrange(offset, offset + bytes.len()) == bytes,
        to <= offset || offset + bytes.len() <= from ==> write_at(area, offset, bytes).subrange(
            from,
            to,
        ) == area.subrange(from, to),
{
    let written = write_at(area, offset, bytes);
    assert(written.subrange(offset, offset + bytes.len()) =~= bytes);
    if to <= offset || offset + bytes.len() <= from {
        assert(written.subrange(from, to) =~= area.subrange(from, to));
    }
}

/// Whether the area holds the slot at the places that its bind request
/// names: the indicator and the length in little-endian order, and the
/// value bytes.
pub open spec fn area_holds(area: Seq<u8>, request: BindRequest, slot: SlotView) -> bool {
    &&& area.subrange(request.indicator_offset as int, request.indicator_offset + INDICATOR_SIZE)
        == i16_bytes(slot.indicator)
    &&& area.subrange(request.length_offset as int, request.length_offset + LENGTH_SIZE)
        == u32_bytes(slot.length)
    &&& area.subrange(request.value_offset as int, request.value_offset + slot.size) == slot.data
}

/// Whether the slots are as many as the members, well formed and each of
/// its member's size.
pub open spec fn slots_match(members: Seq<Member>, slots: Seq<ParamValue>) -> bool {
    &&& slots.len() == members.len()
    &&& projection_wf(slots)
    &&& forall|i: int|
        0 <= i < members.len() ==> (#[trigger] slots[i])@.size == members[i].descriptor.size
}

/// Where the three parts of a slot stand: inside the area, the indicator
/// in the indicators part, the length in the lengths part and the value in
/// the values part, behind the values of the slots before it.
pub proof fn lemma_slot_places(members: Seq<Member>, index: int)
    requires
        params_fit(member_sizes(members)),
        0 <= index < members.len(),
    ensures
        ({
            let sizes = member_sizes(members);
            let request = bind_request(members, index);
            &&& request.indicator_offset == INDICATOR_SIZE * index
            &&& request.indicator_offset + INDICATOR_SIZE <= param_indicators_size(sizes)
            &&& request.length_offset == param_indicators_size(sizes) + LENGTH_SIZE * index
            &&& request.length_offset + LENGTH_SIZE <= param_indicators_size(sizes)
                + param_lengths_size(sizes)
            &&& request.value_offset == param_indicators_size(sizes) + param_lengths_size(sizes)
                + offset_of(sizes, index)
            &&& request.value_offset + sizes[index] == param_indicators_size(sizes)
                + param_lengths_size(sizes) + offset_of(sizes, index + 1)
            &&& request.value_offset + sizes[index] <= param_area_size(sizes)
            &&& request.size == sizes[index]
            &&& 0 <= offset_of(sizes, index)
        }),
{
    let sizes = member_sizes(members);
    lemma_param_area_bounds(sizes);
    lemma_offset_of_step(sizes, index);
    lemma_offset_of_monotonic(sizes, 0, index);
}

/// Whether the three parts of a slot lie inside an area of the given
/// length, one behind the other: the indicator, then the length, then the
/// value.
pub open spec fn parts_in_order(request: BindRequest, slot: SlotView, length: int) -> bool {
    &&& slot.data.len() == slot.size
    &&& i16_bytes(slot.indicator).len() == INDICATOR_SIZE
    &&& u32_bytes(slot.length).len() == LENGTH_SIZE
    &&& request.indicator_offset + INDICATOR_SIZE <= request.length_offset
    &&& request.length_offset + LENGTH_SIZE <= request.value_offset
    &&& request.value_offset + slot.size <= length
}

/// Writing a slot into an area keeps the length of the area and leaves
/// every range beside the three parts of the slot as it was.
pub proof fn lemma_slot_image_keeps(
    area: Seq<u8>,
    request: BindRequest,
    slot: SlotView,
    from: int,
    to: int,
)
    requires
        parts_in_order(request, slot, area.len() as int),
        0 <= from <= to <= area.len(),
        to <= request.indicator_offset || request.indicator_offset + INDICATOR_SIZE <= from,
        to <= request.length_offset || request.length_offset + LENGTH_SIZE <= from,
        to <= request.value_offset || request.value_offset + slot.size <= from,
    ensures
        slot_image(area, request, slot).len() == area.len(),
        slot_image(area, request, slot).subrange(from, to) == area.subrange(from, to),
{
    let first = write_at(area, request.indicator_offset as int, i16_bytes(slot.indicator));
    let second = write_at(first, request.length_offset as int, u32_bytes(slot.length));
    lemma_write_at(area, request.indicator_offset as int, i16_bytes(slot.indicator), from, to);
    lemma_write_at(first, request.length_offset as int, u32_bytes(slot.length), from, to);
    lemma_write_at(second, request.value_offset as int, slot.data, from, to);
}

/// An area into which a slot was written holds the slot.
pub proof fn lemma_slot_image_holds(area: Seq<u8>, request: BindRequest, slot: SlotView)
    requires
        parts_in_order(request, slot, area.len() as int),
    ensures
        area_holds(slot_image(area, request, slot), request, slot),
{
    let i_from = request.indicator_offset as int;
    let l_from = request.length_offset as int;
    let v_from = request.value_offset as int;
    let first = write_at(area, i_from, i16_bytes(slot.indicator));
    let second = write_at(first, l_from, u32_bytes(slot.length));
    lemma_write_at(area, i_from, i16_bytes(slot.indicator), 0, 0);
    lemma_write_at(first, l_from, u32_bytes(slot.length), i_from, i_from + 2);
    lemma_write_at(second, v_from, slot.data, i_from, i_from + 2);
    lemma_write_at(second, v_from, slot.data, l_from, l_from + 4);
}

/// The parts of a slot of a parameter area lie in order inside the area.
pub proof fn lemma_slot_parts_in_order(members: Seq<Member>, slots: Seq<ParamValue>, index: int)
    requires
        params_fit(member_sizes(members)),
        slots_match(members, slots),
        0 <= index < members.len(),
    ensures
        parts_in_order(
            bind_request(members, index),
            slots[index]@,
            param_area_size(member_sizes(members)),
        ),
{
    let sizes = member_sizes(members);
    lemma_param_area_bounds(sizes);
    lemma_slot_places(members, index);
    vstd::bytes::lemma_auto_spec_u16_to_from_le_bytes();
    vstd::bytes::lemma_auto_spec_u32_to_from_le_bytes();
    assert(sizes.len() == members.len());
    assert(sizes[index] == members[index].descriptor.size);
    assert(slots[index]@.wf());
    assert(i16_bytes(slots[index]@.indicator).len() == 2);
    assert(u32_bytes(slots[index]@.length).len() == 4);
}

/// The image of the area has the size of the area, however many slots
/// were written into it.
pub proof fn lemma_area_image_len(members: Seq<Member>, slots: Seq<ParamValue>, count: int)
    requires
        params_fit(member_sizes(members)),
        slots_match(members, slots),
        0 <= count <= members.len(),
    ensures
        area_image(members, slots, count).len() == param_area_size(member_sizes(members)),
    decreases count,
{
    lemma_param_area_bounds(member_sizes(members));
    if count > 0 {
        let last = count - 1;
        lemma_area_image_len(members, slots, last);
        lemma_slot_parts_in_order(members, slots, last);
        lemma_slot_image_keeps(
            area_image(members, slots, last),
            bind_request(members, last),
            slots[last]@,
            0,
            0,
        );
    }
}

/// The image of the area holds every slot that was written into it, at
/// the places that the slot's bind request names: no slot overwrites
/// another.
pub proof fn lemma_area_image_holds(
    members: Seq<Member>,
    slots: Seq<ParamValue>,
    count: int,
    index: int,
)
    requires
        params_fit(member_sizes(members)),
        slots_match(members, slots),
        0 <= index < count <= members.len(),
    ensures
        area_holds(area_image(members, slots, count), bind_request(members, index), slots[index]@),
    decreases count,
{
    let sizes = member_sizes(members);
    let last = count - 1;
    let before = area_image(members, slots, last);
    let request = bind_request(members, last);
    let slot = slots[last]@;
    lemma_area_image_len(members, slots, last);
    lemma_slot_parts_in_order(members, slots, last);
    if index == last {
        lemma_slot_image_holds(before, request, slot);
    } else {
        let wanted = bind_request(members, index);
        let held = slots[index]@;
        lemma_area_image_holds(members, slots, last, index);
        lemma_slot_parts_in_order(members, slots, index);
        lemma_slot_places(members, last);
        lemma_slot_places(members, index);
        lemma_offset_of_monotonic(sizes, index + 1, last);
        lemma_param_area_bounds(sizes);
        assert(sizes.len() == members.len());
        let i_from = wanted.indicator_offset as int;
        let l_from = wanted.length_offset as int;
        let v_from = wanted.value_offset as int;
        lemma_slot_image_keeps(before, request, slot, i_from, i_from + 2);
        lemma_slot_image_keeps(before, request, slot, l_from, l_from + 4);
        lemma_slot_image_keeps(before, request, slot, v_from, v_from + held.size);
    }
}

/// The parameter area of one prepared statement: its layout, fixed at
/// preparation, and the slots that each execution rewrites.
pub struct ParamsProcessor {
    members: Vec<Member>,
    indicators_size: usize,
    lengths_size: usize,
    values_size: usize,
    allocated_size: usize,
    projection: ParamsProjection,
}

impl ParamsProcessor {
    /// The members that the area was laid out for.
    pub closed spec fn member_seq(&self) -> Seq<Member> {
        self.members@
    }

    /// The slots, one per member.
    pub closed spec fn slots(&self) -> Seq<ParamValue> {
        self.projection@
    }

    /// The layout matches the members and every slot has its member's size.
    pub closed spec fn wf(&self) -> bool {
        let sizes = member_sizes(self.members@);
        &&& params_fit(sizes)
        &&& self.indicators_size == param_indicators_size(sizes)
        &&& self.lengths_size == param_lengths_size(sizes)
        &&& self.values_size == param_values_size(sizes)
        &&& self.allocated_size == param_area_size(sizes)
        &&& self.projection@.len() == self.members@.len()
        &&& projection_wf(self.projection@)
        &&& forall|i: int|
            0 <= i < self.members@.len() ==> (#[trigger] self.projection@[i])@.size
                == self.members@[i].descriptor.size
    }

    /// Lays out the parameter area for the given members and makes an empty
    /// slot for each. Fails, with the library's own error code, exactly where no
    /// area can be laid out for them.
    pub fn new(members: Vec<Member>) -> (made: OracleResult<ParamsProcessor>)
        ensures
            made is Ok <==> params_fit(member_sizes(members@)),
            made matches Ok(processor) ==> {
                &&& processor.wf()
                &&& processor.member_seq() == members@
                &&& processor.slots().len() == members@.len()
                &&& forall|i: int|
                    0 <= i < members@.len() ==> (#[trigger] processor.slots()[i])@ == (SlotView {
                        data: Seq::new(members@[i].descriptor.size as nat, |j: int| 0u8),
                        indicator: INDICATOR_PRESENT,
                        length: 0,
                        size: members@[i].descriptor.size,
                    })
            },
            made matches Err(error) ==> error.errcode == OCI_ERROR && error.location@
                == PREPARE_LOCATION@,
    {
        let ghost sizes = member_sizes(members@);
        let columns_cnt = members.len();
        proof {
            lemma_param_area_bounds(sizes);
        }
        if columns_cnt > u32::MAX as usize || columns_cnt > (isize::MAX as usize) / 4 {
            return Err(layout_error());
        }
        let mut projection: ParamsProjection = Vec::new();
        let mut val_size: usize = 0;
        let mut i: usize = 0;
        while i < columns_cnt
            invariant
                i <= columns_cnt,
                columns_cnt == members@.len(),
                sizes == member_sizes(members@),
                val_size == offset_of(sizes, i as int),
                val_size <= isize::MAX,
                projection@.len() == i,
                projection_wf(projection@),
                forall|k: int| 0 <= k < i ==> sizes[k] <= u32::MAX,
                forall|k: int|
                    0 <= k < i ==> (#[trigger] projection@[k])@ == (SlotView {
                        data: Seq::new(members@[k].descriptor.size as nat, |j: int| 0u8),
                        indicator: INDICATOR_PRESENT,
                        length: 0,
                        size: members@[k].descriptor.size,
                    }),
            decreases columns_cnt - i,
        {
            let size = members[i].descriptor.size;
            proof {
                lemma_offset_of_step(sizes, i as int);
                lemma_param_area_bounds(sizes);
            }
            if size > u32::MAX as usize {
                return Err(layout_error());
            }
            if size > isize::MAX as usize - val_size {
                return Err(layout_error());
            }
            val_size = val_size + size;
            projection.push(ParamValue::new(size));
            i = i + 1;
        }
        proof {
            assert(sizes.take(sizes.len() as int) =~= sizes);
        }
        let values_size = match align_checked(val_size, VALUES_ALIGN) {
            Some(v) => v,
            None => {
                return Err(layout_error());
            },
        };
        let indicators_size = match align_checked(INDICATOR_SIZE * columns_cnt, INDICATORS_ALIGN) {
            Some(v) => v,
            None => {
                return Err(layout_error());
            },
        };
        let lengths_size = match align_checked(LENGTH_SIZE * columns_cnt, INDICATORS_ALIGN) {
            Some(v) => v,
            None => {
                return Err(layout_error());
            },
        };
        if lengths_size > isize::MAX as usize - indicators_size {
            return Err(layout_error());
        }
        let heads_size = indicators_size + lengths_size;
        if values_size > isize::MAX as usize - heads_size {
            return Err(layout_error());
        }
        let allocated_size = match align_checked(heads_size + values_size, AREA_ALIGN) {
            Some(v) => v,
            None => {
                return Err(layout_error());
            },
        };
        Ok(
            ParamsProcessor {
                members,
                indicators_size,
                lengths_size,
                values_size,
                allocated_size,
                projection,
            },
        )
    }

    /// Bytes of the whole area.
    pub fn allocated_size(&self) -> (size: usize)
        requires
            self.wf(),
        ensures
            size == param_area_size(member_sizes(self.member_seq())),
    {
        self.allocated_size
    }

    /// Bytes of the indicators part, which opens the area.
    pub fn indicators_size(&self) -> (size: usize)
        requires
            self.wf(),
        ensures
            size == param_indicators_size(member_sizes(self.member_seq())),
    {
        self.indicators_size
    }

    /// Bytes of the lengths part, which follows the indicators.
    pub fn lengths_size(&self) -> (size: usize)
        requires
            self.wf(),
        ensures
            size == param_lengths_size(member_sizes(self.member_seq())),
    {
        self.lengths_size
    }

    /// Bytes of the values part, which closes the area.
    pub fn values_size(&self) -> (size: usize)
        requires
            self.wf(),
        ensures
            size == param_values_size(member_sizes(self.member_seq())),
    {
        self.values_size
    }

    /// The slots as they stand.
    pub fn projection(&self) -> (projection: &ParamsProjection)
        ensures
            projection@ == self.slots(),
    {
        &self.projection
    }

    /// A well-formed area has one well-formed slot per member, of the
    /// member's size.
    pub proof fn lemma_slots_match_members(&self)
        requires
            self.wf(),
        ensures
            params_fit(member_sizes(self.member_seq())),
            self.slots().len() == self.member_seq().len(),
            projection_wf(self.slots()),
            forall|i: int|
                0 <= i < self.member_seq().len() ==> (#[trigger] self.slots()[i])@.size
                    == self.member_seq()[i].descriptor.size,
    {
    }

    /// What `render` gives holds every slot at the places that `bindings`
    /// names for it.
    pub proof fn lemma_image_holds_slot(&self, index: int)
        requires
            self.wf(),
            0 <= index < self.member_seq().len(),
        ensures
            area_holds(
                area_image(self.member_seq(), self.slots(), self.slots().len() as int),
                bind_request(self.member_seq(), index),
                self.slots()[index]@,
            ),
    {
        lemma_area_image_holds(self.members@, self.projection@, self.members@.len() as int, index);
    }

    /// The bind requests, one per member and in the members' order.
    pub fn bindings(&self) -> (requests: Vec<BindRequest>)
        requires
            self.wf(),
        ensures
            requests@.len() == self.member_seq().len(),
            forall|i: int|
                0 <= i < requests@.len() ==> #[trigger] requests@[i] == bind_request(
                    self.member_seq(),
                    i,
                ),
    {
        let ghost sizes = member_sizes(self.members@);
        let columns_cnt = self.members.len();
        let values_base = self.indicators_size + self.lengths_size;
        let mut requests: Vec<BindRequest> = Vec::new();
        let mut offset: usize = 0;
        let mut i: usize = 0;
        proof {
            lemma_param_area_bounds(sizes);
        }
        while i < columns_cnt
            invariant
                self.wf(),
                i <= columns_cnt,
                columns_cnt == self.members@.len(),
                sizes == member_sizes(self.members@),
                values_base == param_indicators_size(sizes) + param_lengths_size(sizes),
                offset == offset_of(sizes, i as int),
                requests@.len() == i,
                forall|k: int|
                    0 <= k < i ==> #[trigger] requests@[k] == bind_request(self.members@, k),
            decreases columns_cnt - i,
        {
            let m = &self.members[i];
            proof {
                lemma_offset_of_step(sizes, i as int);
                lemma_param_area_bounds(sizes);
            }
            requests.push(
                BindRequest {
                    identifier: m.identifier,
                    position: (i + 1) as u32,
                    dtype: m.descriptor.dtype,
                    size: m.descriptor.size,
                    value_offset: values_base + offset,
                    indicator_offset: INDICATOR_SIZE * i,
                    length_offset: self.indicators_size + LENGTH_SIZE * i,
                },
            );
            offset = offset + m.descriptor.size;
            i = i + 1;
        }
        requests
    }

    /// Writes a parameter value into the slots through its provider. The
    /// layout stays as it is: each slot receives its encoding and keeps its
    /// size.
    pub fn set_params<P, Pr: ParamsProvider<P>>(&mut self, provider: &Pr, params: &P)
        requires
            old(self).wf(),
            provider.member_list() == old(self).member_seq(),
        ensures
            final(self).wf(),
            final(self).member_seq() == old(self).member_seq(),
            provider.encodings(params).len() == old(self).member_seq().len(),
            projection_stores(old(self).slots(), final(self).slots(), provider.encodings(params)),
    {
        let ghost before = self.projection@;
        provider.project_values(params, &mut self.projection);
        proof {
            let encodings = provider.encodings(params);
            assert forall|i: int| 0 <= i < self.members@.len() implies (
            #[trigger] self.projection@[i])@.size == self.members@[i].descriptor.size by {
                lemma_store_keeps_capacity(before[i]@, encodings[i]);
            }
        }
    }

    /// The area as bytes: indicators, then lengths, then values, every slot
    /// at the place that its bind request names. Indicators and lengths are
    /// written in little-endian order.
    pub fn render(&self) -> (image: Vec<u8>)
        requires
            self.wf(),
        ensures
            image@.len() == param_area_size(member_sizes(self.member_seq())),
            image@ == area_image(self.member_seq(), self.slots(), self.slots().len() as int),
    {
        let ghost sizes = member_sizes(self.members@);
        let columns_cnt = self.members.len();
        let values_base = self.indicators_size + self.lengths_size;
        let mut image: Vec<u8> = vec![0u8; self.allocated_size];
        assert(image@ =~= area_image(self.members@, self.projection@, 0));
        let mut offset: usize = 0;
        let mut i: usize = 0;
        proof {
            lemma_param_area_bounds(sizes);
        }
        while i < columns_cnt
            invariant
                self.wf(),
                i <= columns_cnt,
                columns_cnt == self.members@.len(),
                sizes == member_sizes(self.members@),
                values_base == param_indicators_size(sizes) + param_lengths_size(sizes),
                offset == offset_of(sizes, i as int),
                image@.len() == param_area_size(sizes),
                image@ == area_image(self.members@, self.projection@, i as int),
            decreases columns_cnt - i,
        {
            let slot = &self.projection[i];
            proof {
                lemma_offset_of_step(sizes, i as int);
                lemma_param_area_bounds(sizes);
                vstd::bytes::lemma_auto_spec_u16_to_from_le_bytes();
                vstd::bytes::lemma_auto_spec_u32_to_from_le_bytes();
                assert(slot@.size == sizes[i as int]);
                assert(slot@.data.len() == slot@.size);
            }
            let indicator = u16_to_le_bytes(#[verifier::truncate] (slot.indicator() as u16));
            write_bytes(&mut image, INDICATOR_SIZE * i, indicator.as_slice());
            let length = u32_to_le_bytes(slot.length());
            write_bytes(&mut image, self.indicators_size + LENGTH_SIZE * i, length.as_slice());
            write_bytes(&mut image, values_base + offset, slot.data().as_slice());
            offset = offset + slot.size();
            i = i + 1;
        }
        image
    }
}

/// Operation label of the error for a parameter area that cannot be laid
/// out.
pub const PREPARE_LOCATION: &'static str = "prepare";

/// The error of an area that cannot be laid out.
fn layout_error() -> (error: OracleError)
    ensures
        error.errcode == OCI_ERROR,
        error.location@ == PREPARE_LOCATION@,
{
    OracleError::new(
        "Can not lay out the parameter buffer: its size is out of range".to_string(),
        PREPARE_LOCATION,
    )
}

} // verus!
