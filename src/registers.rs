use vstd::prelude::*;

verus! {

/// A register operand: a number in the encoding's index space.
pub trait Register: Sized + Copy {
    /// Number of the register (0 to 15 for the general-purpose and vector banks).
    spec fn number(self) -> u8;

    /// Whether the register is an 8-bit general-purpose register.
    spec fn is_8_bit() -> bool;

    /// Index.
    fn index(self) -> (r: u8)
        ensures
            r == self.number(),
            r < 16,
    ;

    fn is_register_8_bit() -> (r: bool)
        ensures
            r == Self::is_8_bit(),
    ;

    /// An 8-bit register numbered 4 to 7 (`SPL`, `BPL`, `SIL`, `DIL`) can only be
    /// told apart from `AH`, `CH`, `DH`, `BH` by the presence of a `REX` byte.
    fn requires_rex_byte(self) -> (r: bool)
        ensures
            r == (Self::is_8_bit() && self.number() > 3),
    {
        Self::is_register_8_bit() && self.index() > 3
    }

    /// A register numbered 8 or above needs an extension bit of `REX` or `VEX`.
    fn requires_rex_bit(self) -> (r: bool)
        ensures
            r == (self.number() > 7),
    {
        self.index() > 7
    }
}

/// 64-bit general-purpose registers.
#[derive(Debug, Clone, Copy, PartialEq, Eq, Structural, Hash)]
pub enum Register64Bit {
    /// Register `RAX`.
    RAX,
    /// Register `RCX`.
    RCX,
    /// Register `RDX`.
    RDX,
    /// Register `RBX`.
    RBX,
    /// Register `RSP`.
    RSP,
    /// Register `RBP`.
    RBP,
    /// Register `RSI`.
    RSI,
    /// Register `RDI`.
    RDI,
    /// Register `R8`.
    R8,
    /// Register `R9`.
    R9,
    /// Register `R10`.
    R10,
    /// Register `R11`.
    R11,
    /// Register `R12`.
    R12,
    /// Register `R13`.
    R13,
    /// Register `R14`.
    R14,
    /// Register `R15`.
    R15,
}

impl Register64Bit {
    /// Number of this register in the encoding.
    pub open spec fn spec_index(self) -> u8 {
        match self {
            Register64Bit::RAX => 0,
            Register64Bit::RCX => 1,
            Register64Bit::RDX => 2,
            Register64Bit::RBX => 3,
            Register64Bit::RSP => 4,
            Register64Bit::RBP => 5,
            Register64Bit::RSI => 6,
            Register64Bit::RDI => 7,
            Register64Bit::R8 => 8,
            Register64Bit::R9 => 9,
            Register64Bit::R10 => 10,
            Register64Bit::R11 => 11,
            Register64Bit::R12 => 12,
            Register64Bit::R13 => 13,
            Register64Bit::R14 => 14,
            Register64Bit::R15 => 15,
        }
    }
}

impl Register for Register64Bit {
    open spec fn number(self) -> u8 {
        self.spec_index()
    }

    open spec fn is_8_bit() -> bool {
        false
    }

    fn index(self) -> (r: u8) {
        match self {
            Register64Bit::RAX => 0,
            Register64Bit::RCX => 1,
            Register64Bit::RDX => 2,
            Register64Bit::RBX => 3,
            Register64Bit::RSP => 4,
            Register64Bit::RBP => 5,
            Register64Bit::RSI => 6,
            Register64Bit::RDI => 7,
            Register64Bit::R8 => 8,
            Register64Bit::R9 => 9,
            Register64Bit::R10 => 10,
            Register64Bit::R11 => 11,
            Register64Bit::R12 => 12,
            Register64Bit::R13 => 13,
            Register64Bit::R14 => 14,
            Register64Bit::R15 => 15,
        }
    }

    fn is_register_8_bit() -> (r: bool) {
        false
    }
}

/// 32-bit general-purpose registers.
#[derive(Debug, Clone, Copy, PartialEq, Eq, Structural, Hash)]
pub enum Register32Bit {
    /// Register `EAX`.
    EAX,
    /// Register `ECX`.
    ECX,
    /// Register `EDX`.
    EDX,
    /// Register `EBX`.
    EBX,
    /// Register `ESP`.
    ESP,
    /// Register `EBP`.
    EBP,
    /// Register `ESI`.
    ESI,
    /// Register `EDI`.
    EDI,
    /// Register `R8D`.
    R8D,
    /// Register `R9D`.
    R9D,
    /// Register `R10D`.
    R10D,
    /// Register `R11D`.
    R11D,
    /// Register `R12D`.
    R12D,
    /// Register `R13D`.
    R13D,
    /// Register `R14D`.
    R14D,
    /// Register `R15D`.
    R15D,
}

impl Register32Bit {
    /// Number of this register in the encoding.
    pub open spec fn spec_index(self) -> u8 {
        match self {
            Register32Bit::EAX => 0,
            Register32Bit::ECX => 1,
            Register32Bit::EDX => 2,
            Register32Bit::EBX => 3,
            Register32Bit::ESP => 4,
            Register32Bit::EBP => 5,
            Register32Bit::ESI => 6,
            Register32Bit::EDI => 7,
            Register32Bit::R8D => 8,
            Register32Bit::R9D => 9,
            Register32Bit::R10D => 10,
            Register32Bit::R11D => 11,
            Register32Bit::R12D => 12,
            Register32Bit::R13D => 13,
            Register32Bit::R14D => 14,
            Register32Bit::R15D => 15,
        }
    }
}

impl Register for Register32Bit {
    open spec fn number(self) -> u8 {
        self.spec_index()
    }

    open spec fn is_8_bit() -> bool {
        false
    }

    fn index(self) -> (r: u8) {
        match self {
            Register32Bit::EAX => 0,
            Register32Bit::ECX => 1,
            Register32Bit::EDX => 2,
            Register32Bit::EBX => 3,
            Register32Bit::ESP => 4,
            Register32Bit::EBP => 5,
            Register32Bit::ESI => 6,
            Register32Bit::EDI => 7,
            Register32Bit::R8D => 8,
            Register32Bit::R9D => 9,
            Register32Bit::R10D => 10,
            Register32Bit::R11D => 11,
            Register32Bit::R12D => 12,
            Register32Bit::R13D => 13,
            Register32Bit::R14D => 14,
            Register32Bit::R15D => 15,
        }
    }

    fn is_register_8_bit() -> (r: bool) {
        false
    }
}

/// 8-bit general-purpose registers (those reachable with a `REX` prefix).
#[derive(Debug, Clone, Copy, PartialEq, Eq, Structural, Hash)]
pub enum Register8Bit {
    /// Register `AL`.
    AL,
    /// Register `CL`.
    CL,
    /// Register `DL`.
    DL,
    /// Register `BL`.
    BL,
    /// Register `SPL`.
    SPL,
    /// Register `BPL`.
    BPL,
    /// Register `SIL`.
    SIL,
    /// Register `DIL`.
    DIL,
    /// Register `R8B`.
    R8B,
    /// Register `R9B`.
    R9B,
    /// Register `R10B`.
    R10B,
    /// Register `R11B`.
    R11B,
    /// Register `R12B`.
    R12B,
    /// Register `R13B`.
    R13B,
    /// Register `R14B`.
    R14B,
    /// Register `R15B`.
    R15B,
}

impl Register8Bit {
    /// Number of this register in the encoding.
    pub open spec fn spec_index(self) -> u8 {
        match self {
            Register8Bit::AL => 0,
            Register8Bit::CL => 1,
            Register8Bit::DL => 2,
            Register8Bit::BL => 3,
            Register8Bit::SPL => 4,
            Register8Bit::BPL => 5,
            Register8Bit::SIL => 6,
            Register8Bit::DIL => 7,
            Register8Bit::R8B => 8,
            Register8Bit::R9B => 9,
            Register8Bit::R10B => 10,
            Register8Bit::R11B => 11,
            Register8Bit::R12B => 12,
            Register8Bit::R13B => 13,
            Register8Bit::R14B => 14,
            Register8Bit::R15B => 15,
        }
    }
}

impl Register for Register8Bit {
    open spec fn number(self) -> u8 {
        self.spec_index()
    }

    open spec fn is_8_bit() -> bool {
        true
    }

    fn index(self) -> (r: u8) {
        match self {
            Register8Bit::AL => 0,
            Register8Bit::CL => 1,
            Register8Bit::DL => 2,
            Register8Bit::BL => 3,
            Register8Bit::SPL => 4,
            Register8Bit::BPL => 5,
            Register8Bit::SIL => 6,
            Register8Bit::DIL => 7,
            Register8Bit::R8B => 8,
            Register8Bit::R9B => 9,
            Register8Bit::R10B => 10,
            Register8Bit::R11B => 11,
            Register8Bit::R12B => 12,
            Register8Bit::R13B => 13,
            Register8Bit::R14B => 14,
            Register8Bit::R15B => 15,
        }
    }

    fn is_register_8_bit() -> (r: bool) {
        true
    }
}

/// 128-bit SSE / AVX registers.
#[derive(Debug, Clone, Copy, PartialEq, Eq, Structural, Hash)]
pub enum XMMRegister {
    /// Register `XMM0`.
    XMM0,
    /// Register `XMM1`.
    XMM1,
    /// Register `XMM2`.
    XMM2,
    /// Register `XMM3`.
    XMM3,
    /// Register `XMM4`.
    XMM4,
    /// Register `XMM5`.
    XMM5,
    /// Register `XMM6`.
    XMM6,
    /// Register `XMM7`.
    XMM7,
    /// Register `XMM8`.
    XMM8,
    /// Register `XMM9`.
    XMM9,
    /// Register `XMM10`.
    XMM10,
    /// Register `XMM11`.
    XMM11,
    /// Register `XMM12`.
    XMM12,
    /// Register `XMM13`.
    XMM13,
    /// Register `XMM14`.
    XMM14,
    /// Register `XMM15`.
    XMM15,
}

impl XMMRegister {
    /// Number of this register in the encoding.
    pub open spec fn spec_index(self) -> u8 {
        match self {
            XMMRegister::XMM0 => 0,
            XMMRegister::XMM1 => 1,
            XMMRegister::XMM2 => 2,
            XMMRegister::XMM3 => 3,
            XMMRegister::XMM4 => 4,
            XMMRegister::XMM5 => 5,
            XMMRegister::XMM6 => 6,
            XMMRegister::XMM7 => 7,
            XMMRegister::XMM8 => 8,
            XMMRegister::XMM9 => 9,
            XMMRegister::XMM10 => 10,
            XMMRegister::XMM11 => 11,
            XMMRegister::XMM12 => 12,
            XMMRegister::XMM13 => 13,
            XMMRegister::XMM14 => 14,
            XMMRegister::XMM15 => 15,
        }
    }
}

impl Register for XMMRegister {
    open spec fn number(self) -> u8 {
        self.spec_index()
    }

    open spec fn is_8_bit() -> bool {
        false
    }

    fn index(self) -> (r: u8) {
        match self {
            XMMRegister::XMM0 => 0,
            XMMRegister::XMM1 => 1,
            XMMRegister::XMM2 => 2,
            XMMRegister::XMM3 => 3,
            XMMRegister::XMM4 => 4,
            XMMRegister::XMM5 => 5,
            XMMRegister::XMM6 => 6,
            XMMRegister::XMM7 => 7,
            XMMRegister::XMM8 => 8,
            XMMRegister::XMM9 => 9,
            XMMRegister::XMM10 => 10,
            XMMRegister::XMM11 => 11,
            XMMRegister::XMM12 => 12,
            XMMRegister::XMM13 => 13,
            XMMRegister::XMM14 => 14,
            XMMRegister::XMM15 => 15,
        }
    }

    fn is_register_8_bit() -> (r: bool) {
        false
    }
}

/// 256-bit AVX registers.
#[derive(Debug, Clone, Copy, PartialEq, Eq, Structural, Hash)]
pub enum YMMRegister {
    /// Register `YMM0`.
    YMM0,
    /// Register `YMM1`.
    YMM1,
    /// Register `YMM2`.
    YMM2,
    /// Register `YMM3`.
    YMM3,
    /// Register `YMM4`.
    YMM4,
    /// Register `YMM5`.
    YMM5,
    /// Register `YMM6`.
    YMM6,
    /// Register `YMM7`.
    YMM7,
    /// Register `YMM8`.
    YMM8,
    /// Register `YMM9`.
    YMM9,
    /// Register `YMM10`.
    YMM10,
    /// Register `YMM11`.
    YMM11,
    /// Register `YMM12`.
    YMM12,
    /// Register `YMM13`.
    YMM13,
    /// Register `YMM14`.
    YMM14,
    /// Register `YMM15`.
    YMM15,
}

impl YMMRegister {
    /// Number of this register in the encoding.
    pub open spec fn spec_index(self) -> u8 {
        match self {
            YMMRegister::YMM0 => 0,
            YMMRegister::YMM1 => 1,
            YMMRegister::YMM2 => 2,
            YMMRegister::YMM3 => 3,
            YMMRegister::YMM4 => 4,
            YMMRegister::YMM5 => 5,
            YMMRegister::YMM6 => 6,
            YMMRegister::YMM7 => 7,
            YMMRegister::YMM8 => 8,
            YMMRegister::YMM9 => 9,
            YMMRegister::YMM10 => 10,
            YMMRegister::YMM11 => 11,
            YMMRegister::YMM12 => 12,
            YMMRegister::YMM13 => 13,
            YMMRegister::YMM14 => 14,
            YMMRegister::YMM15 => 15,
        }
    }
}

impl Register for YMMRegister {
    open spec fn number(self) -> u8 {
        self.spec_index()
    }

    open spec fn is_8_bit() -> bool {
        false
    }

    fn index(self) -> (r: u8) {
        match self {
            YMMRegister::YMM0 => 0,
            YMMRegister::YMM1 => 1,
            YMMRegister::YMM2 => 2,
            YMMRegister::YMM3 => 3,
            YMMRegister::YMM4 => 4,
            YMMRegister::YMM5 => 5,
            YMMRegister::YMM6 => 6,
            YMMRegister::YMM7 => 7,
            YMMRegister::YMM8 => 8,
            YMMRegister::YMM9 => 9,
            YMMRegister::YMM10 => 10,
            YMMRegister::YMM11 => 11,
            YMMRegister::YMM12 => 12,
            YMMRegister::YMM13 => 13,
            YMMRegister::YMM14 => 14,
            YMMRegister::YMM15 => 15,
        }
    }

    fn is_register_8_bit() -> (r: bool) {
        false
    }
}

/// MMX registers; they share their numbering with the x87 stack registers.
#[derive(Debug, Clone, Copy, PartialEq, Eq, Structural, Hash)]
pub enum MMRegister {
    /// Register `MM0`.
    MM0,
    /// Register `MM1`.
    MM1,
    /// Register `MM2`.
    MM2,
    /// Register `MM3`.
    MM3,
    /// Register `MM4`.
    MM4,
    /// Register `MM5`.
    MM5,
    /// Register `MM6`.
    MM6,
    /// Register `MM7`.
    MM7,
}

impl MMRegister {
    /// Number of this register in the encoding.
    pub open spec fn spec_index(self) -> u8 {
        match self {
            MMRegister::MM0 => 0,
            MMRegister::MM1 => 1,
            MMRegister::MM2 => 2,
            MMRegister::MM3 => 3,
            MMRegister::MM4 => 4,
            MMRegister::MM5 => 5,
            MMRegister::MM6 => 6,
            MMRegister::MM7 => 7,
        }
    }
}

impl Register for MMRegister {
    open spec fn number(self) -> u8 {
        self.spec_index()
    }

    open spec fn is_8_bit() -> bool {
        false
    }

    fn index(self) -> (r: u8) {
        match self {
            MMRegister::MM0 => 0,
            MMRegister::MM1 => 1,
            MMRegister::MM2 => 2,
            MMRegister::MM3 => 3,
            MMRegister::MM4 => 4,
            MMRegister::MM5 => 5,
            MMRegister::MM6 => 6,
            MMRegister::MM7 => 7,
        }
    }

    fn is_register_8_bit() -> (r: bool) {
        false
    }
}

/// x87 floating-point stack registers.
#[derive(Debug, Clone, Copy, PartialEq, Eq, Structural, Hash)]
pub enum X87Register {
    /// Register `ST(0)`.
    ST0,
    /// Register `ST(1)`.
    ST1,
    /// Register `ST(2)`.
    ST2,
    /// Register `ST(3)`.
    ST3,
    /// Register `ST(4)`.
    ST4,
    /// Register `ST(5)`.
    ST5,
    /// Register `ST(6)`.
    ST6,
    /// Register `ST(7)`.
    ST7,
}

impl From<X87Register> for MMRegister {
    fn from(value: X87Register) -> (r: Self) {
        match value {
            X87Register::ST0 => MMRegister::MM0,
            X87Register::ST1 => MMRegister::MM1,
            X87Register::ST2 => MMRegister::MM2,
            X87Register::ST3 => MMRegister::MM3,
            X87Register::ST4 => MMRegister::MM4,
            X87Register::ST5 => MMRegister::MM5,
            X87Register::ST6 => MMRegister::MM6,
            X87Register::ST7 => MMRegister::MM7,
        }
    }
}

impl vstd::std_specs::convert::FromSpecImpl<X87Register> for MMRegister {
    open spec fn obeys_from_spec() -> bool {
        true
    }

    open spec fn from_spec(v: X87Register) -> Self {
        match v {
            X87Register::ST0 => MMRegister::MM0,
            X87Register::ST1 => MMRegister::MM1,
            X87Register::ST2 => MMRegister::MM2,
            X87Register::ST3 => MMRegister::MM3,
            X87Register::ST4 => MMRegister::MM4,
            X87Register::ST5 => MMRegister::MM5,
            X87Register::ST6 => MMRegister::MM6,
            X87Register::ST7 => MMRegister::MM7,
        }
    }
}

impl X87Register {
    /// Number of this register in the encoding.
    pub open spec fn spec_index(self) -> u8 {
        match self {
            X87Register::ST0 => 0,
            X87Register::ST1 => 1,
            X87Register::ST2 => 2,
            X87Register::ST3 => 3,
            X87Register::ST4 => 4,
            X87Register::ST5 => 5,
            X87Register::ST6 => 6,
            X87Register::ST7 => 7,
        }
    }
}

impl Register for X87Register {
    open spec fn number(self) -> u8 {
        self.spec_index()
    }

    open spec fn is_8_bit() -> bool {
        false
    }

    fn index(self) -> (r: u8) {
        match self {
            X87Register::ST0 => 0,
            X87Register::ST1 => 1,
            X87Register::ST2 => 2,
            X87Register::ST3 => 3,
            X87Register::ST4 => 4,
            X87Register::ST5 => 5,
            X87Register::ST6 => 6,
            X87Register::ST7 => 7,
        }
    }

    fn is_register_8_bit() -> (r: bool) {
        false
    }
}

/// Segment registers; only `FS` and `GS` change an address in 64-bit long mode.
#[derive(Debug, Clone, Copy, PartialEq, Eq, Structural, Hash)]
pub enum SegmentRegister {
    /// Segment register `ES`.
    ES,
    /// Segment register `CS`.
    CS,
    /// Segment register `SS`.
    SS,
    /// Segment register `DS`.
    DS,
    /// Segment register `FS`.
    FS,
    /// Segment register `GS`.
    GS,
}

impl SegmentRegister {
    /// The segment-override prefix (prefix group 2) that selects this register.
    pub open spec fn spec_override_prefix(self) -> u8 {
        match self {
            SegmentRegister::ES => 0x26,
            SegmentRegister::CS => 0x2E,
            SegmentRegister::SS => 0x36,
            SegmentRegister::DS => 0x3E,
            SegmentRegister::FS => 0x64,
            SegmentRegister::GS => 0x65,
        }
    }

    pub fn override_prefix(self) -> (r: u8)
        ensures
            r == self.spec_override_prefix(),
    {
        match self {
            SegmentRegister::ES => 0x26,
            SegmentRegister::CS => 0x2E,
            SegmentRegister::SS => 0x36,
            SegmentRegister::DS => 0x3E,
            SegmentRegister::FS => 0x64,
            SegmentRegister::GS => 0x65,
        }
    }
}

/// Control registers.
#[derive(Debug, Clone, Copy, PartialEq, Eq, Structural, Hash)]
pub enum ControlRegister {
    /// Register `CR0`.
    CR0,
    /// Register `CR2`.
    CR2,
    /// Register `CR3`.
    CR3,
    /// Register `CR4`.
    CR4,
    /// Register `CR8`.
    CR8,
}

impl ControlRegister {
    /// Number of this register in the encoding.
    pub open spec fn spec_index(self) -> u8 {
        match self {
            ControlRegister::CR0 => 0,
            ControlRegister::CR2 => 2,
            ControlRegister::CR3 => 3,
            ControlRegister::CR4 => 4,
            ControlRegister::CR8 => 8,
        }
    }
}

impl Register for ControlRegister {
    open spec fn number(self) -> u8 {
        self.spec_index()
    }

    open spec fn is_8_bit() -> bool {
        false
    }

    fn index(self) -> (r: u8) {
        match self {
            ControlRegister::CR0 => 0,
            ControlRegister::CR2 => 2,
            ControlRegister::CR3 => 3,
            ControlRegister::CR4 => 4,
            ControlRegister::CR8 => 8,
        }
    }

    fn is_register_8_bit() -> (r: bool) {
        false
    }
}

/// Debug registers.
#[derive(Debug, Clone, Copy, PartialEq, Eq, Structural, Hash)]
pub enum DebugRegister {
    /// Register `DR0`.
    DR0,
    /// Register `DR1`.
    DR1,
    /// Register `DR2`.
    DR2,
    /// Register `DR3`.
    DR3,
    /// Register `DR4`.
    DR4,
    /// Register `DR5`.
    DR5,
    /// Register `DR6`.
    DR6,
    /// Register `DR7`.
    DR7,
}

impl DebugRegister {
    /// Number of this register in the encoding.
    pub open spec fn spec_index(self) -> u8 {
        match self {
            DebugRegister::DR0 => 0,
            DebugRegister::DR1 => 1,
            DebugRegister::DR2 => 2,
            DebugRegister::DR3 => 3,
            DebugRegister::DR4 => 4,
            DebugRegister::DR5 => 5,
            DebugRegister::DR6 => 6,
            DebugRegister::DR7 => 7,
        }
    }
}

impl Register for DebugRegister {
    open spec fn number(self) -> u8 {
        self.spec_index()
    }

    open spec fn is_8_bit() -> bool {
        false
    }

    fn index(self) -> (r: u8) {
        match self {
            DebugRegister::DR0 => 0,
            DebugRegister::DR1 => 1,
            DebugRegister::DR2 => 2,
            DebugRegister::DR3 => 3,
            DebugRegister::DR4 => 4,
            DebugRegister::DR5 => 5,
            DebugRegister::DR6 => 6,
            DebugRegister::DR7 => 7,
        }
    }

    fn is_register_8_bit() -> (r: bool) {
        false
    }
}

impl Register for SegmentRegister {
    open spec fn number(self) -> u8 {
        match self {
            SegmentRegister::ES => 0,
            SegmentRegister::CS => 1,
            SegmentRegister::SS => 2,
            SegmentRegister::DS => 3,
            SegmentRegister::FS => 4,
            SegmentRegister::GS => 5,
        }
    }

    open spec fn is_8_bit() -> bool {
        false
    }

    fn index(self) -> (r: u8) {
        match self {
            SegmentRegister::ES => 0,
            SegmentRegister::CS => 1,
            SegmentRegister::SS => 2,
            SegmentRegister::DS => 3,
            SegmentRegister::FS => 4,
            SegmentRegister::GS => 5,
        }
    }

    fn is_register_8_bit() -> (r: bool) {
        false
    }
}

impl Default for MMRegister {
    fn default() -> (r: Self)
        ensures
            r == MMRegister::MM0,
    {
        MMRegister::MM0
    }
}

impl Default for X87Register {
    fn default() -> (r: Self)
        ensures
            r == X87Register::ST0,
    {
        X87Register::ST0
    }
}

impl MMRegister {
    /// The MMX register that shares its number with the x87 register `value`.
    pub fn from_x87(value: X87Register) -> (r: MMRegister)
        ensures
            r.spec_index() == value.spec_index(),
    {
        match value {
            X87Register::ST0 => MMRegister::MM0,
            X87Register::ST1 => MMRegister::MM1,
            X87Register::ST2 => MMRegister::MM2,
            X87Register::ST3 => MMRegister::MM3,
            X87Register::ST4 => MMRegister::MM4,
            X87Register::ST5 => MMRegister::MM5,
            X87Register::ST6 => MMRegister::MM6,
            X87Register::ST7 => MMRegister::MM7,
        }
    }
}

impl X87Register {
    /// The low three bits added to an opcode byte that embeds this register.
    pub fn to_opcode(self) -> (r: u8)
        ensures
            r == self.spec_index() % 8,
            r < 8,
    {
        let i = self.index();
        i % 8
    }
}

} // verus!
