use vstd::prelude::*;

use crate::index::BraidIndex;
use crate::strand::Strand;

verus! {

/// An integer of one of Rust's integer types, or a strand or braid index: the kinds of values
/// from which strands and braid indices are built.
#[derive(Debug, PartialEq, Eq, Clone, Copy)]
pub enum Data {
    /// A `u8`.
    U8(u8),
    /// A `u16`.
    U16(u16),
    /// A `u32`.
    U32(u32),
    /// A `u64`.
    U64(u64),
    /// A `u128`.
    U128(u128),
    /// A `usize`.
    USize(usize),
    /// An `i8`.
    I8(i8),
    /// An `i16`.
    I16(i16),
    /// An `i32`.
    I32(i32),
    /// An `i64`.
    I64(i64),
    /// An `i128`.
    I128(i128),
    /// An `isize`.
    ISize(isize),
    /// A strand.
    Strand(Strand),
    /// A braid index.
    BraidIndex(BraidIndex),
}

/// The variant of a [`Data`], without its value.
pub ghost enum DataKind {
    U8,
    U16,
    U32,
    U64,
    U128,
    USize,
    I8,
    I16,
    I32,
    I64,
    I128,
    ISize,
    Strand,
    BraidIndex,
}

/// The variant of `d`.
pub open spec fn data_kind(d: Data) -> DataKind {
    match d {
        Data::U8(_) => DataKind::U8,
        Data::U16(_) => DataKind::U16,
        Data::U32(_) => DataKind::U32,
        Data::U64(_) => DataKind::U64,
        Data::U128(_) => DataKind::U128,
        Data::USize(_) => DataKind::USize,
        Data::I8(_) => DataKind::I8,
        Data::I16(_) => DataKind::I16,
        Data::I32(_) => DataKind::I32,
        Data::I64(_) => DataKind::I64,
        Data::I128(_) => DataKind::I128,
        Data::ISize(_) => DataKind::ISize,
        Data::Strand(_) => DataKind::Strand,
        Data::BraidIndex(_) => DataKind::BraidIndex,
    }
}

/// The integer value of `d`.
pub open spec fn data_value(d: Data) -> int {
    match d {
        Data::U8(v) => v as int,
        Data::U16(v) => v as int,
        Data::U32(v) => v as int,
        Data::U64(v) => v as int,
        Data::U128(v) => v as int,
        Data::USize(v) => v as int,
        Data::I8(v) => v as int,
        Data::I16(v) => v as int,
        Data::I32(v) => v as int,
        Data::I64(v) => v as int,
        Data::I128(v) => v as int,
        Data::ISize(v) => v as int,
        Data::Strand(s) => s@,
        Data::BraidIndex(n) => n@,
    }
}

/// What adding `rhs` to `d` gives, as a variant and a value: the sum, in the same variant if it
/// fits there and in a wider one otherwise. A strand or braid index that would leave the range
/// of `u16` becomes a `u32`; a non-negative `i8` or `i16` sum beyond `i16::MAX`, and any sum of
/// a negative `i8` or `i16`, becomes an `i32`. On a target whose `usize` has 32 bits, a `usize`
/// or `isize` sum that leaves its type becomes the difference `d - rhs` in a 64-bit variant.
pub open spec fn data_add_spec(d: Data, rhs: int) -> (DataKind, int) {
    let v = data_value(d);
    let s = v + rhs;
    match d {
        Data::U8(_) => (
            if s > u16::MAX {
                DataKind::U32
            } else if s > u8::MAX {
                DataKind::U16
            } else {
                DataKind::U8
            },
            s,
        ),
        Data::U16(_) => (
            if s > u16::MAX {
                DataKind::U32
            } else {
                DataKind::U16
            },
            s,
        ),
        Data::U32(_) => (
            if s > u32::MAX {
                DataKind::U64
            } else {
                DataKind::U32
            },
            s,
        ),
        Data::U64(_) => (
            if s > u64::MAX {
                DataKind::U128
            } else {
                DataKind::U64
            },
            s,
        ),
        Data::U128(_) => (DataKind::U128, s),
        Data::USize(_) => if s > usize::MAX {
            if usize::BITS == 32 {
                (DataKind::U64, v - rhs)
            } else {
                (DataKind::U128, s)
            }
        } else {
            (DataKind::USize, s)
        },
        Data::I8(_) => (
            if v < 0 || s > i16::MAX {
                DataKind::I32
            } else if s > i8::MAX {
                DataKind::I16
            } else {
                DataKind::I8
            },
            s,
        ),
        Data::I16(_) => (
            if v < 0 || s > i16::MAX {
                DataKind::I32
            } else {
                DataKind::I16
            },
            s,
        ),
        Data::I32(_) => (
            if s > i32::MAX {
                DataKind::I64
            } else {
                DataKind::I32
            },
            s,
        ),
        Data::I64(_) => (
            if s > i64::MAX {
                DataKind::I128
            } else {
                DataKind::I64
            },
            s,
        ),
        Data::I128(_) => (
            if s > i128::MAX {
                DataKind::U128
            } else {
                DataKind::I128
            },
            s,
        ),
        Data::ISize(_) => if s > isize::MAX {
            if isize::BITS == 32 {
                (DataKind::I64, v - rhs)
            } else {
                (DataKind::I128, s)
            }
        } else {
            (DataKind::ISize, s)
        },
        Data::Strand(_) => (
            if s > u16::MAX {
                DataKind::U32
            } else {
                DataKind::Strand
            },
            s,
        ),
        Data::BraidIndex(_) => (
            if s > u16::MAX {
                DataKind::U32
            } else {
                DataKind::BraidIndex
            },
            s,
        ),
    }
}

/// Whether `rhs` can be added to `d`: only a `u128` sum can leave every variant.
pub open spec fn data_add_defined(d: Data, rhs: int) -> bool {
    !(d is U128 && data_value(d) + rhs > u128::MAX)
}

impl Data {
    /// The value as a `u16`; it must lie in the range of `u16`.
    pub fn to_u16(self) -> (r: u16)
        requires
            0 <= data_value(self) <= u16::MAX,
        ensures
            r == data_value(self),
    {
        match self {
            Data::U8(v) => v as u16,
            Data::U16(v) => v,
            Data::U32(v) => v as u16,
            Data::U64(v) => v as u16,
            Data::U128(v) => v as u16,
            Data::USize(v) => v as u16,
            Data::I8(v) => v as u16,
            Data::I16(v) => v as u16,
            Data::I32(v) => v as u16,
            Data::I64(v) => v as u16,
            Data::I128(v) => v as u16,
            Data::ISize(v) => v as u16,
            Data::Strand(s) => s.value(),
            Data::BraidIndex(n) => n.value(),
        }
    }
}

impl std::ops::Add<u16> for Data {
    type Output = Data;

    fn add(self, rhs: u16) -> (r: Data)
        ensures
            data_kind(r) == data_add_spec(self, rhs as int).0,
            data_value(r) == data_add_spec(self, rhs as int).1,
    {
        match self {
            Data::U8(val) => {
                if val as u32 + rhs as u32 > 65535 {
                    Data::U32(val as u32 + rhs as u32)
                } else if val as u16 + rhs > 255 {
                    Data::U16(val as u16 + rhs)
                } else {
                    Data::U8(val + rhs as u8)
                }
            },
            Data::U16(val) => {
                if val > u16::MAX - rhs {
                    Data::U32(val as u32 + rhs as u32)
                } else {
                    Data::U16(val + rhs)
                }
            },
            Data::U32(val) => {
                if val > u32::MAX - (rhs as u32) {
                    Data::U64(val as u64 + rhs as u64)
                } else {
                    Data::U32(val + rhs as u32)
                }
            },
            Data::U64(val) => {
                if val > u64::MAX - (rhs as u64) {
                    Data::U128(val as u128 + rhs as u128)
                } else {
                    Data::U64(val + rhs as u64)
                }
            },
            Data::U128(val) => Data::U128(val + rhs as u128),
            Data::USize(val) => {
                if val > usize::MAX - (rhs as usize) {
                    if usize::BITS == 32 {
                        Data::U64(val as u64 - rhs as u64)
                    } else {
                        Data::U128(val as u128 + rhs as u128)
                    }
                } else {
                    Data::USize(val + rhs as usize)
                }
            },
            Data::I8(val) => {
                if val < 0 || val as i32 + rhs as i32 > 32767 {
                    Data::I32(val as i32 + rhs as i32)
                } else if val as i16 + rhs as i16 > 127 {
                    Data::I16(val as i16 + rhs as i16)
                } else {
                    Data::I8(val + rhs as i8)
                }
            },
            Data::I16(val) => {
                if val < 0 || val as i32 + rhs as i32 > 32767 {
                    Data::I32(val as i32 + rhs as i32)
                } else {
                    Data::I16(val + rhs as i16)
                }
            },
            Data::I32(val) => {
                if val > i32::MAX - rhs as i32 {
                    Data::I64(val as i64 + rhs as i64)
                } else {
                    Data::I32(val + rhs as i32)
                }
            },
            Data::I64(val) => {
                if val > i64::MAX - rhs as i64 {
                    Data::I128(val as i128 + rhs as i128)
                } else {
                    Data::I64(val + rhs as i64)
                }
            },
            Data::I128(val) => {
                if val > i128::MAX - rhs as i128 {
                    Data::U128(val as u128 + rhs as u128)
                } else {
                    Data::I128(val + rhs as i128)
                }
            },
            Data::ISize(val) => {
                if val > isize::MAX - (rhs as isize) {
                    if isize::BITS == 32 {
                        Data::I64(val as i64 - rhs as i64)
                    } else {
                        Data::I128(val as i128 + rhs as i128)
                    }
                } else {
                    Data::ISize(val + rhs as isize)
                }
            },
            Data::Strand(val) => {
                let idx = val.value();
                if idx > u16::MAX - rhs {
                    Data::U32(idx as u32 + rhs as u32)
                } else {
                    match (val + rhs).into_result() {
                        Ok(sum) => Data::Strand(sum),
                        Err(_) => {
                            proof {
                                assert(false);
                            }
                            Data::U32(0)
                        },
                    }
                }
            },
            Data::BraidIndex(val) => {
                let idx = val.value();
                if idx > u16::MAX - rhs {
                    Data::U32(idx as u32 + rhs as u32)
                } else {
                    match BraidIndex::try_new((idx + rhs) as i64).into_result() {
                        Ok(sum) => Data::BraidIndex(sum),
                        Err(_) => {
                            proof {
                                assert(false);
                            }
                            Data::U32(0)
                        },
                    }
                }
            },
        }
    }
}

impl vstd::std_specs::ops::AddSpecImpl<u16> for Data {
    open spec fn obeys_add_spec() -> bool {
        false
    }

    open spec fn add_req(self, rhs: u16) -> bool {
        data_add_defined(self, rhs as int)
    }

    open spec fn add_spec(self, rhs: u16) -> Data {
        arbitrary()
    }
}

} // verus!
