//! Type descriptors: the external type code and the in-buffer size of one
//! column or parameter slot.

use vstd::prelude::*;

verus! {

/// External code of variable-length character data.
pub const SQLT_CHR: u16 = 1;

/// External code of a native integer.
pub const SQLT_INT: u16 = 3;

/// External code of a native floating point number.
pub const SQLT_FLT: u16 = 4;

/// External code of long character data.
pub const SQLT_LNG: u16 = 8;

/// External code of the seven-byte date.
pub const SQLT_DAT: u16 = 12;

/// Bytes that one date or date-time occupies in a buffer.
pub const DATE_SIZE: usize = 7;

/// Capacity of a string slot when the caller names none.
pub const DEFAULT_STRING_CAPACITY: usize = 128;

/// Capacity reserved for a column of long character data.
pub const LONG_STRING_CAPACITY: usize = 4000;

/// Bytes of the length prefix that a string slot reserves beside its capacity.
pub const STRING_PREFIX_SIZE: usize = 2;

/// External type code and byte size of one value in a row buffer.
#[derive(Debug, Clone, Copy, PartialEq, Eq, Structural)]
pub struct TypeDescriptor {
    pub dtype: u16,
    pub size: usize,
}

/// The logical column types that a dynamic query can carry.
#[derive(Debug, Clone, Copy, PartialEq, Eq, Structural)]
pub enum SqlType {
    Int16,
    Int32,
    Int64,
    Float64,
    Varchar,
    Long,
    DateTime,
}

/// A calendar date.
#[derive(Debug, Clone, Copy, PartialEq, Eq, Structural)]
pub struct SqlDate {
    pub year: i32,
    pub month: u8,
    pub day: u8,
}

/// A calendar date with the time of day.
#[derive(Debug, Clone, Copy, PartialEq, Eq, Structural)]
pub struct SqlDateTime {
    pub year: i32,
    pub month: u8,
    pub day: u8,
    pub hour: u8,
    pub minute: u8,
    pub second: u8,
}

/// A double-precision floating point number, carried as its 64 bits.
#[derive(Debug, Clone, Copy, PartialEq, Eq, Structural)]
pub struct SqlFloat {
    pub bits: u64,
}

/// The descriptor of a string slot of the given capacity.
pub open spec fn string_descriptor(capacity: usize) -> TypeDescriptor {
    TypeDescriptor { dtype: SQLT_CHR, size: (capacity + STRING_PREFIX_SIZE) as usize }
}

/// The descriptor that a logical column type is bound or defined with.
pub open spec fn sql_type_descriptor(col_type: SqlType) -> TypeDescriptor {
    match col_type {
        SqlType::Int16 => TypeDescriptor { dtype: SQLT_INT, size: 2 },
        SqlType::Int32 => TypeDescriptor { dtype: SQLT_INT, size: 4 },
        SqlType::Int64 => TypeDescriptor { dtype: SQLT_INT, size: 8 },
        SqlType::Float64 => TypeDescriptor { dtype: SQLT_FLT, size: 8 },
        SqlType::Varchar => string_descriptor(DEFAULT_STRING_CAPACITY),
        SqlType::Long => TypeDescriptor { dtype: SQLT_LNG, size: LONG_STRING_CAPACITY },
        SqlType::DateTime => TypeDescriptor { dtype: SQLT_DAT, size: DATE_SIZE },
    }
}

impl TypeDescriptor {
    pub fn new(dtype: u16, size: usize) -> (descriptor: TypeDescriptor)
        ensures
            descriptor == (TypeDescriptor { dtype, size }),
    {
        TypeDescriptor { dtype, size }
    }

    /// The descriptor of a logical column type.
    pub fn for_sql_type(col_type: SqlType) -> (descriptor: TypeDescriptor)
        ensures
            descriptor == sql_type_descriptor(col_type),
    {
        match col_type {
            SqlType::Int16 => TypeDescriptor { dtype: SQLT_INT, size: 2 },
            SqlType::Int32 => TypeDescriptor { dtype: SQLT_INT, size: 4 },
            SqlType::Int64 => TypeDescriptor { dtype: SQLT_INT, size: 8 },
            SqlType::Float64 => TypeDescriptor { dtype: SQLT_FLT, size: 8 },
            SqlType::Varchar => string_sqltype(DEFAULT_STRING_CAPACITY),
            SqlType::Long => TypeDescriptor { dtype: SQLT_LNG, size: LONG_STRING_CAPACITY },
            SqlType::DateTime => TypeDescriptor { dtype: SQLT_DAT, size: DATE_SIZE },
        }
    }

    /// The descriptor of a character column of the given declared length.
    pub fn for_varchar(capacity: usize) -> (descriptor: TypeDescriptor)
        requires
            capacity + STRING_PREFIX_SIZE <= usize::MAX,
        ensures
            descriptor == string_descriptor(capacity),
    {
        string_sqltype(capacity)
    }
}

/// The descriptor of a string slot: character data with room for `capacity`
/// bytes and the two-byte length prefix.
pub fn string_sqltype(capacity: usize) -> (descriptor: TypeDescriptor)
    requires
        capacity + STRING_PREFIX_SIZE <= usize::MAX,
    ensures
        descriptor == string_descriptor(capacity),
{
    TypeDescriptor { dtype: SQLT_CHR, size: capacity + STRING_PREFIX_SIZE }
}

/// Names the descriptor that values of a type are bound and defined with.
pub trait TypeDescriptorProducer<T> {
    /// The descriptor for a slot of the given capacity; fixed-width types
    /// ignore the capacity.
    spec fn descriptor_for(capacity: usize) -> TypeDescriptor;

    /// The capacity that `produce` asks for.
    spec fn default_capacity() -> usize;

    fn produce() -> (descriptor: TypeDescriptor)
        ensures
            descriptor == Self::descriptor_for(Self::default_capacity()),
    ;

    fn produce_sized(capacity: usize) -> (descriptor: TypeDescriptor)
        requires
            capacity + STRING_PREFIX_SIZE <= usize::MAX,
        ensures
            descriptor == Self::descriptor_for(capacity),
    ;
}

impl TypeDescriptorProducer<i16> for i16 {
    open spec fn descriptor_for(capacity: usize) -> TypeDescriptor {
        TypeDescriptor { dtype: SQLT_INT, size: 2 }
    }

    open spec fn default_capacity() -> usize {
        0
    }

    fn produce() -> (descriptor: TypeDescriptor) {
        Self::produce_sized(0)
    }

    fn produce_sized(capacity: usize) -> (descriptor: TypeDescriptor) {
        TypeDescriptor { dtype: SQLT_INT, size: 2 }
    }
}

impl TypeDescriptorProducer<i32> for i32 {
    open spec fn descriptor_for(capacity: usize) -> TypeDescriptor {
        TypeDescriptor { dtype: SQLT_INT, size: 4 }
    }

    open spec fn default_capacity() -> usize {
        0
    }

    fn produce() -> (descriptor: TypeDescriptor) {
        Self::produce_sized(0)
    }

    fn produce_sized(capacity: usize) -> (descriptor: TypeDescriptor) {
        TypeDescriptor { dtype: SQLT_INT, size: 4 }
    }
}

impl TypeDescriptorProducer<i64> for i64 {
    open spec fn descriptor_for(capacity: usize) -> TypeDescriptor {
        TypeDescriptor { dtype: SQLT_INT, size: 8 }
    }

    open spec fn default_capacity() -> usize {
        0
    }

    fn produce() -> (descriptor: TypeDescriptor) {
        Self::produce_sized(0)
    }

    fn produce_sized(capacity: usize) -> (descriptor: TypeDescriptor) {
        TypeDescriptor { dtype: SQLT_INT, size: 8 }
    }
}

impl TypeDescriptorProducer<u16> for u16 {
    open spec fn descriptor_for(capacity: usize) -> TypeDescriptor {
        TypeDescriptor { dtype: SQLT_INT, size: 2 }
    }

    open spec fn default_capacity() -> usize {
        0
    }

    fn produce() -> (descriptor: TypeDescriptor) {
        Self::produce_sized(0)
    }

    fn produce_sized(capacity: usize) -> (descriptor: TypeDescriptor) {
        TypeDescriptor { dtype: SQLT_INT, size: 2 }
    }
}

impl TypeDescriptorProducer<u32> for u32 {
    open spec fn descriptor_for(capacity: usize) -> TypeDescriptor {
        TypeDescriptor { dtype: SQLT_INT, size: 4 }
    }

    open spec fn default_capacity() -> usize {
        0
    }

    fn produce() -> (descriptor: TypeDescriptor) {
        Self::produce_sized(0)
    }

    fn produce_sized(capacity: usize) -> (descriptor: TypeDescriptor) {
        TypeDescriptor { dtype: SQLT_INT, size: 4 }
    }
}

impl TypeDescriptorProducer<u64> for u64 {
    open spec fn descriptor_for(capacity: usize) -> TypeDescriptor {
        TypeDescriptor { dtype: SQLT_INT, size: 8 }
    }

    open spec fn default_capacity() -> usize {
        0
    }

    fn produce() -> (descriptor: TypeDescriptor) {
        Self::produce_sized(0)
    }

    fn produce_sized(capacity: usize) -> (descriptor: TypeDescriptor) {
        TypeDescriptor { dtype: SQLT_INT, size: 8 }
    }
}

impl TypeDescriptorProducer<bool> for bool {
    open spec fn descriptor_for(capacity: usize) -> TypeDescriptor {
        TypeDescriptor { dtype: SQLT_INT, size: 2 }
    }

    open spec fn default_capacity() -> usize {
        0
    }

    fn produce() -> (descriptor: TypeDescriptor) {
        Self::produce_sized(0)
    }

    fn produce_sized(capacity: usize) -> (descriptor: TypeDescriptor) {
        TypeDescriptor { dtype: SQLT_INT, size: 2 }
    }
}

impl TypeDescriptorProducer<String> for String {
    open spec fn descriptor_for(capacity: usize) -> TypeDescriptor {
        string_descriptor(capacity)
    }

    open spec fn default_capacity() -> usize {
        DEFAULT_STRING_CAPACITY
    }

    fn produce() -> (descriptor: TypeDescriptor) {
        Self::produce_sized(DEFAULT_STRING_CAPACITY)
    }

    fn produce_sized(capacity: usize) -> (descriptor: TypeDescriptor) {
        string_sqltype(capacity)
    }
}

impl TypeDescriptorProducer<&'static str> for &'static str {
    open spec fn descriptor_for(capacity: usize) -> TypeDescriptor {
        string_descriptor(capacity)
    }

    open spec fn default_capacity() -> usize {
        DEFAULT_STRING_CAPACITY
    }

    fn produce() -> (descriptor: TypeDescriptor) {
        Self::produce_sized(DEFAULT_STRING_CAPACITY)
    }

    fn produce_sized(capacity: usize) -> (descriptor: TypeDescriptor) {
        string_sqltype(capacity)
    }
}

impl TypeDescriptorProducer<SqlDate> for SqlDate {
    open spec fn descriptor_for(capacity: usize) -> TypeDescriptor {
        TypeDescriptor { dtype: SQLT_DAT, size: DATE_SIZE }
    }

    open spec fn default_capacity() -> usize {
        0
    }

    fn produce() -> (descriptor: TypeDescriptor) {
        Self::produce_sized(0)
    }

    fn produce_sized(capacity: usize) -> (descriptor: TypeDescriptor) {
        TypeDescriptor { dtype: SQLT_DAT, size: DATE_SIZE }
    }
}

impl TypeDescriptorProducer<SqlDateTime> for SqlDateTime {
    open spec fn descriptor_for(capacity: usize) -> TypeDescriptor {
        TypeDescriptor { dtype: SQLT_DAT, size: DATE_SIZE }
    }

    open spec fn default_capacity() -> usize {
        0
    }

    fn produce() -> (descriptor: TypeDescriptor) {
        Self::produce_sized(0)
    }

    fn produce_sized(capacity: usize) -> (descriptor: TypeDescriptor) {
        TypeDescriptor { dtype: SQLT_DAT, size: DATE_SIZE }
    }
}

impl TypeDescriptorProducer<SqlFloat> for SqlFloat {
    open spec fn descriptor_for(capacity: usize) -> TypeDescriptor {
        TypeDescriptor { dtype: SQLT_FLT, size: 8 }
    }

    open spec fn default_capacity() -> usize {
        0
    }

    fn produce() -> (descriptor: TypeDescriptor) {
        Self::produce_sized(0)
    }

    fn produce_sized(capacity: usize) -> (descriptor: TypeDescriptor) {
        TypeDescriptor { dtype: SQLT_FLT, size: 8 }
    }
}

/// An optional value has the descriptor of the value.
impl<T: TypeDescriptorProducer<T>> TypeDescriptorProducer<Option<T>> for Option<T> {
    open spec fn descriptor_for(capacity: usize) -> TypeDescriptor {
        T::descriptor_for(capacity)
    }

    open spec fn default_capacity() -> usize {
        T::default_capacity()
    }

    fn produce() -> (descriptor: TypeDescriptor) {
        T::produce()
    }

    fn produce_sized(capacity: usize) -> (descriptor: TypeDescriptor) {
        T::produce_sized(capacity)
    }
}

/// The descriptor of a double-precision floating point slot.
pub fn float_sqltype() -> (descriptor: TypeDescriptor)
    ensures
        descriptor == sql_type_descriptor(SqlType::Float64),
{
    TypeDescriptor { dtype: SQLT_FLT, size: 8 }
}

} // verus!
