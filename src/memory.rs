use vstd::prelude::*;
use crate::emitter::le_bytes;
use crate::immediates::{AsDisplacement, Immediate64Bit, twos_complement};
use crate::registers::{Register, Register32Bit, Register64Bit, SegmentRegister};

verus! {

/// Scale applied to the index register of a memory operand.
#[derive(Debug, Clone, Copy, PartialEq, Eq, Structural, Hash)]
pub enum Scale {
    /// `* 1`.
    One,
    /// `* 2`.
    Two,
    /// `* 4`.
    Four,
    /// `* 8`.
    Eight,
}

impl Scale {
    /// The two bits of the `SIB` byte that encode the scale.
    pub open spec fn spec_bits(self) -> u8 {
        match self {
            Scale::One => 0,
            Scale::Two => 1,
            Scale::Four => 2,
            Scale::Eight => 3,
        }
    }

    pub fn bits(self) -> (r: u8)
        ensures
            r == self.spec_bits(),
    {
        match self {
            Scale::One => 0,
            Scale::Two => 1,
            Scale::Four => 2,
            Scale::Eight => 3,
        }
    }
}

/// How a memory operand forms its address. Registers are given by number.
#[derive(Debug, Clone, Copy, PartialEq, Eq, Structural, Hash)]
pub enum Address {
    /// `[base + displacement]`.
    Based { base: u8, displacement: i32 },
    /// `[base + index * scale + displacement]`.
    BasedIndexed { base: u8, index: u8, scale: Scale, displacement: i32 },
    /// `[index * scale + displacement]`, with a 32-bit displacement.
    Indexed { index: u8, scale: Scale, displacement: i32 },
    /// `[RIP + displacement]`.
    RipRelative { displacement: i32 },
    /// `[displacement]`, an absolute address.
    Absolute { displacement: i32 },
}

/// A memory operand: an address, an optional segment override and the address size.
#[derive(Debug, Clone, Copy, PartialEq, Eq, Structural, Hash)]
pub struct MemoryOperand {
    pub segment: Option<SegmentRegister>,
    pub address: Address,
    /// Base and index are 32-bit registers (an address-size override prefix is emitted).
    pub address_size_32: bool,
}

impl Address {
    /// Register numbers are in range, and `RSP` is never an index.
    pub open spec fn wf(self) -> bool {
        match self {
            Address::Based { base, .. } => base < 16,
            Address::BasedIndexed { base, index, .. } => base < 16 && index < 16 && index != 4,
            Address::Indexed { index, .. } => index < 16 && index != 4,
            _ => true,
        }
    }
}

impl MemoryOperand {
    pub open spec fn wf(self) -> bool {
        self.address.wf()
    }

    /// `[base + displacement]` with a 64-bit base register.
    pub fn based(base: Register64Bit, displacement: i32) -> (r: MemoryOperand)
        ensures
            r.wf(),
            r == (MemoryOperand {
                segment: None,
                address: Address::Based { base: base.spec_index(), displacement },
                address_size_32: false,
            }),
    {
        MemoryOperand {
            segment: None,
            address: Address::Based { base: base.index(), displacement },
            address_size_32: false,
        }
    }

    /// `[base + displacement]` with a 32-bit base register.
    pub fn based_32(base: Register32Bit, displacement: i32) -> (r: MemoryOperand)
        ensures
            r.wf(),
            r == (MemoryOperand {
                segment: None,
                address: Address::Based { base: base.spec_index(), displacement },
                address_size_32: true,
            }),
    {
        MemoryOperand {
            segment: None,
            address: Address::Based { base: base.index(), displacement },
            address_size_32: true,
        }
    }

    /// `[base + index * scale + displacement]`; `RSP` cannot be an index.
    pub fn based_indexed(base: Register64Bit, index: Register64Bit, scale: Scale, displacement: i32) -> (r:
        MemoryOperand)
        requires
            index != Register64Bit::RSP,
        ensures
            r.wf(),
            r == (MemoryOperand {
                segment: None,
                address: Address::BasedIndexed {
                    base: base.spec_index(),
                    index: index.spec_index(),
                    scale,
                    displacement,
                },
                address_size_32: false,
            }),
    {
        MemoryOperand {
            segment: None,
            address: Address::BasedIndexed { base: base.index(), index: index.index(), scale, displacement },
            address_size_32: false,
        }
    }

    /// `[index * scale + displacement]`; `RSP` cannot be an index.
    pub fn indexed(index: Register64Bit, scale: Scale, displacement: i32) -> (r: MemoryOperand)
        requires
            index != Register64Bit::RSP,
        ensures
            r.wf(),
            r == (MemoryOperand {
                segment: None,
                address: Address::Indexed { index: index.spec_index(), scale, displacement },
                address_size_32: false,
            }),
    {
        MemoryOperand {
            segment: None,
            address: Address::Indexed { index: index.index(), scale, displacement },
            address_size_32: false,
        }
    }

    /// `[RIP + displacement]`.
    pub fn rip_relative(displacement: i32) -> (r: MemoryOperand)
        ensures
            r.wf(),
            r == (MemoryOperand {
                segment: None,
                address: Address::RipRelative { displacement },
                address_size_32: false,
            }),
    {
        MemoryOperand { segment: None, address: Address::RipRelative { displacement }, address_size_32: false }
    }

    /// `[displacement]`, an absolute address.
    pub fn absolute(displacement: i32) -> (r: MemoryOperand)
        ensures
            r.wf(),
            r == (MemoryOperand {
                segment: None,
                address: Address::Absolute { displacement },
                address_size_32: false,
            }),
    {
        MemoryOperand { segment: None, address: Address::Absolute { displacement }, address_size_32: false }
    }

    /// The same operand with a segment override.
    pub fn with_segment(self, segment: SegmentRegister) -> (r: MemoryOperand)
        ensures
            r == (MemoryOperand { segment: Some(segment), ..self }),
    {
        MemoryOperand { segment: Some(segment), ..self }
    }
}

/// 32-bit memory offset.
#[derive(Debug, Clone, Copy, PartialEq, Eq, Structural, Hash)]
pub enum MemoryOffset32Bit {
    /// `segment:offset` form.
    ///
    /// Segment register is ignored in 64-bit long mode.
    SegmentOffsetForm32(SegmentRegister, Immediate64Bit),
    /// `offset` form.
    OffsetForm32(Immediate64Bit),
}

impl MemoryOffset32Bit {
    pub open spec fn spec_segment_register(self) -> Option<SegmentRegister> {
        match self {
            MemoryOffset32Bit::SegmentOffsetForm32(segment_register, _) => Some(segment_register),
            MemoryOffset32Bit::OffsetForm32(_) => None,
        }
    }

    pub open spec fn spec_offset(self) -> Immediate64Bit {
        match self {
            MemoryOffset32Bit::SegmentOffsetForm32(_, immediate) => immediate,
            MemoryOffset32Bit::OffsetForm32(immediate) => immediate,
        }
    }

    pub fn get_segment_register(&self) -> (r: Option<SegmentRegister>)
        ensures
            r == self.spec_segment_register(),
    {
        match *self {
            MemoryOffset32Bit::SegmentOffsetForm32(segment_register, _) => Some(segment_register),
            MemoryOffset32Bit::OffsetForm32(_) => None,
        }
    }

    pub fn get_offset(&self) -> (r: Immediate64Bit)
        ensures
            r == self.spec_offset(),
    {
        match *self {
            MemoryOffset32Bit::SegmentOffsetForm32(_, immediate) => immediate,
            MemoryOffset32Bit::OffsetForm32(immediate) => immediate,
        }
    }

    /// An offset with an optional segment.
    pub fn from_parts(segment_register: Option<SegmentRegister>, offset: Immediate64Bit) -> (r: Self)
        ensures
            r.spec_segment_register() == segment_register,
            r.spec_offset() == offset,
    {
        match segment_register {
            Some(segment_register) => MemoryOffset32Bit::SegmentOffsetForm32(segment_register, offset),
            None => MemoryOffset32Bit::OffsetForm32(offset),
        }
    }

    /// The segment (if any) and the offset.
    pub fn into_parts(self) -> (r: (Option<SegmentRegister>, Immediate64Bit))
        ensures
            r == (self.spec_segment_register(), self.spec_offset()),
    {
        (self.get_segment_register(), self.get_offset())
    }
}

impl Default for MemoryOffset32Bit {
    fn default() -> (r: Self)
        ensures
            r == MemoryOffset32Bit::OffsetForm32(Immediate64Bit(0)),
    {
        MemoryOffset32Bit::OffsetForm32(Immediate64Bit(0))
    }
}

impl From<Immediate64Bit> for MemoryOffset32Bit {
    fn from(value: Immediate64Bit) -> (r: Self) {
        MemoryOffset32Bit::OffsetForm32(value)
    }
}

impl vstd::std_specs::convert::FromSpecImpl<Immediate64Bit> for MemoryOffset32Bit {
    open spec fn obeys_from_spec() -> bool {
        true
    }

    open spec fn from_spec(v: Immediate64Bit) -> Self {
        MemoryOffset32Bit::OffsetForm32(v)
    }
}

impl From<(SegmentRegister, Immediate64Bit)> for MemoryOffset32Bit {
    fn from(value: (SegmentRegister, Immediate64Bit)) -> (r: Self) {
        MemoryOffset32Bit::SegmentOffsetForm32(value.0, value.1)
    }
}

impl vstd::std_specs::convert::FromSpecImpl<(SegmentRegister, Immediate64Bit)> for MemoryOffset32Bit {
    open spec fn obeys_from_spec() -> bool {
        true
    }

    open spec fn from_spec(v: (SegmentRegister, Immediate64Bit)) -> Self {
        MemoryOffset32Bit::SegmentOffsetForm32(v.0, v.1)
    }
}

impl From<i8> for MemoryOffset32Bit {
    fn from(value: i8) -> (r: Self) {
        MemoryOffset32Bit::OffsetForm32(Immediate64Bit(value as i64))
    }
}

impl vstd::std_specs::convert::FromSpecImpl<i8> for MemoryOffset32Bit {
    open spec fn obeys_from_spec() -> bool {
        true
    }

    open spec fn from_spec(value: i8) -> Self {
        MemoryOffset32Bit::OffsetForm32(Immediate64Bit(value as i64))
    }
}

impl From<u8> for MemoryOffset32Bit {
    fn from(value: u8) -> (r: Self) {
        MemoryOffset32Bit::OffsetForm32(Immediate64Bit(value as i64))
    }
}

impl vstd::std_specs::convert::FromSpecImpl<u8> for MemoryOffset32Bit {
    open spec fn obeys_from_spec() -> bool {
        true
    }

    open spec fn from_spec(value: u8) -> Self {
        MemoryOffset32Bit::OffsetForm32(Immediate64Bit(value as i64))
    }
}

impl From<i16> for MemoryOffset32Bit {
    fn from(value: i16) -> (r: Self) {
        MemoryOffset32Bit::OffsetForm32(Immediate64Bit(value as i64))
    }
}

impl vstd::std_specs::convert::FromSpecImpl<i16> for MemoryOffset32Bit {
    open spec fn obeys_from_spec() -> bool {
        true
    }

    open spec fn from_spec(value: i16) -> Self {
        MemoryOffset32Bit::OffsetForm32(Immediate64Bit(value as i64))
    }
}

impl From<u16> for MemoryOffset32Bit {
    fn from(value: u16) -> (r: Self) {
        MemoryOffset32Bit::OffsetForm32(Immediate64Bit(value as i64))
    }
}

impl vstd::std_specs::convert::FromSpecImpl<u16> for MemoryOffset32Bit {
    open spec fn obeys_from_spec() -> bool {
        true
    }

    open spec fn from_spec(value: u16) -> Self {
        MemoryOffset32Bit::OffsetForm32(Immediate64Bit(value as i64))
    }
}

impl From<i32> for MemoryOffset32Bit {
    fn from(value: i32) -> (r: Self) {
        MemoryOffset32Bit::OffsetForm32(Immediate64Bit(value as i64))
    }
}

impl vstd::std_specs::convert::FromSpecImpl<i32> for MemoryOffset32Bit {
    open spec fn obeys_from_spec() -> bool {
        true
    }

    open spec fn from_spec(value: i32) -> Self {
        MemoryOffset32Bit::OffsetForm32(Immediate64Bit(value as i64))
    }
}

impl From<u32> for MemoryOffset32Bit {
    fn from(value: u32) -> (r: Self) {
        MemoryOffset32Bit::OffsetForm32(Immediate64Bit(value as i64))
    }
}

impl vstd::std_specs::convert::FromSpecImpl<u32> for MemoryOffset32Bit {
    open spec fn obeys_from_spec() -> bool {
        true
    }

    open spec fn from_spec(value: u32) -> Self {
        MemoryOffset32Bit::OffsetForm32(Immediate64Bit(value as i64))
    }
}

impl From<i64> for MemoryOffset32Bit {
    fn from(value: i64) -> (r: Self) {
        MemoryOffset32Bit::OffsetForm32(Immediate64Bit(value as i64))
    }
}

impl vstd::std_specs::convert::FromSpecImpl<i64> for MemoryOffset32Bit {
    open spec fn obeys_from_spec() -> bool {
        true
    }

    open spec fn from_spec(value: i64) -> Self {
        MemoryOffset32Bit::OffsetForm32(Immediate64Bit(value as i64))
    }
}

impl From<u64> for MemoryOffset32Bit {
    fn from(value: u64) -> (r: Self) {
        MemoryOffset32Bit::OffsetForm32(Immediate64Bit(value as i64))
    }
}

impl vstd::std_specs::convert::FromSpecImpl<u64> for MemoryOffset32Bit {
    open spec fn obeys_from_spec() -> bool {
        true
    }

    open spec fn from_spec(value: u64) -> Self {
        MemoryOffset32Bit::OffsetForm32(Immediate64Bit(value as i64))
    }
}

impl From<(Option<SegmentRegister>, Immediate64Bit)> for MemoryOffset32Bit {
    fn from(value: (Option<SegmentRegister>, Immediate64Bit)) -> (r: Self) {
        MemoryOffset32Bit::from_parts(value.0, value.1)
    }
}

impl vstd::std_specs::convert::FromSpecImpl<(Option<SegmentRegister>, Immediate64Bit)> for MemoryOffset32Bit {
    open spec fn obeys_from_spec() -> bool {
        true
    }

    open spec fn from_spec(value: (Option<SegmentRegister>, Immediate64Bit)) -> Self {
        match value.0 {
            Some(segment_register) => MemoryOffset32Bit::SegmentOffsetForm32(segment_register, value.1),
            None => MemoryOffset32Bit::OffsetForm32(value.1),
        }
    }
}

impl From<MemoryOffset32Bit> for Immediate64Bit {
    fn from(value: MemoryOffset32Bit) -> (r: Self) {
        value.get_offset()
    }
}

impl vstd::std_specs::convert::FromSpecImpl<MemoryOffset32Bit> for Immediate64Bit {
    open spec fn obeys_from_spec() -> bool {
        true
    }

    open spec fn from_spec(value: MemoryOffset32Bit) -> Self {
        value.spec_offset()
    }
}

impl From<MemoryOffset32Bit> for Option<SegmentRegister> {
    fn from(value: MemoryOffset32Bit) -> (r: Self) {
        value.get_segment_register()
    }
}

impl vstd::std_specs::convert::FromSpecImpl<MemoryOffset32Bit> for Option<SegmentRegister> {
    open spec fn obeys_from_spec() -> bool {
        true
    }

    open spec fn from_spec(value: MemoryOffset32Bit) -> Self {
        value.spec_segment_register()
    }
}

impl From<MemoryOffset32Bit> for (Option<SegmentRegister>, Immediate64Bit) {
    fn from(value: MemoryOffset32Bit) -> (r: Self) {
        value.into_parts()
    }
}

impl vstd::std_specs::convert::FromSpecImpl<MemoryOffset32Bit> for (Option<SegmentRegister>, Immediate64Bit) {
    open spec fn obeys_from_spec() -> bool {
        true
    }

    open spec fn from_spec(value: MemoryOffset32Bit) -> Self {
        (value.spec_segment_register(), value.spec_offset())
    }
}

impl From<MemoryOffset32Bit> for i64 {
    fn from(value: MemoryOffset32Bit) -> (r: Self) {
        value.get_offset().0
    }
}

impl vstd::std_specs::convert::FromSpecImpl<MemoryOffset32Bit> for i64 {
    open spec fn obeys_from_spec() -> bool {
        true
    }

    open spec fn from_spec(value: MemoryOffset32Bit) -> Self {
        value.spec_offset().0
    }
}

impl From<MemoryOffset32Bit> for u64 {
    fn from(value: MemoryOffset32Bit) -> (r: Self) {
        value.get_offset().0 as u64
    }
}

impl vstd::std_specs::convert::FromSpecImpl<MemoryOffset32Bit> for u64 {
    open spec fn obeys_from_spec() -> bool {
        true
    }

    open spec fn from_spec(value: MemoryOffset32Bit) -> Self {
        value.spec_offset().0 as u64
    }
}

impl AsDisplacement for MemoryOffset32Bit {
    /// The offset, written as a 64-bit value.
    open spec fn displacement_bytes(self) -> Seq<u8> {
        le_bytes(twos_complement(self.spec_offset().0 as int, 8), 8)
    }

    fn displacement(self) -> (r: (u64, usize)) {
        self.get_offset().displacement()
    }
}

} // verus!
