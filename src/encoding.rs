use vstd::prelude::*;
use crate::emitter::le_bytes;
use crate::emitter::le_bytes_vec;
use crate::immediates::{AsDisplacement, Immediate32Bit, Immediate8Bit, twos_complement};
use crate::memory::{Address, MemoryOperand};

verus! {

/// The operand that the `rm` field of `ModR/M` designates.
#[derive(Debug, Clone, Copy, PartialEq, Eq, Structural, Hash)]
pub enum RegisterOrMemory {
    /// A register by number; `byte_register` marks an 8-bit general-purpose register.
    Register { index: u8, byte_register: bool },
    /// A memory operand.
    Memory(MemoryOperand),
}

impl RegisterOrMemory {
    pub open spec fn wf(self) -> bool {
        match self {
            RegisterOrMemory::Register { index, .. } => index < 16,
            RegisterOrMemory::Memory(m) => m.wf(),
        }
    }
}

/// Whether `d` fits in a signed byte.
pub open spec fn fits_i8(d: int) -> bool {
    -128 <= d <= 127
}

/// `d` written as one signed byte.
pub open spec fn disp8(d: int) -> Seq<u8> {
    le_bytes(twos_complement(d, 1), 1)
}

/// `d` written as four little-endian signed bytes.
pub open spec fn disp32(d: int) -> Seq<u8> {
    le_bytes(twos_complement(d, 4), 4)
}

pub proof fn lemma_displacement_lengths(d: int)
    ensures
        disp8(d).len() == 1,
        disp32(d).len() == 4,
{
    crate::emitter::lemma_le_bytes_len(twos_complement(d, 1), 1);
    crate::emitter::lemma_le_bytes_len(twos_complement(d, 4), 4);
}

/// `mod:2 | reg:3 | rm:3`.
pub open spec fn mod_rm(mode: u8, reg: u8, rm: u8) -> u8 {
    (mode * 64 + (reg % 8) * 8 + rm % 8) as u8
}

/// `scale:2 | index:3 | base:3`.
pub open spec fn sib(scale: u8, index: u8, base: u8) -> u8 {
    (scale * 64 + (index % 8) * 8 + base % 8) as u8
}

/// Mode and displacement bytes for an address relative to `base`: no displacement
/// when it is zero (but `RBP` and `R13` always take one), else the shortest that fits.
pub open spec fn based_mode(base: u8, d: int) -> u8 {
    if d == 0 && base % 8 != 5 {
        0
    } else if fits_i8(d) {
        1
    } else {
        2
    }
}

pub open spec fn based_displacement(base: u8, d: int) -> Seq<u8> {
    if d == 0 && base % 8 != 5 {
        seq![]
    } else if fits_i8(d) {
        disp8(d)
    } else {
        disp32(d)
    }
}

/// `ModR/M`, `SIB` and displacement bytes of a memory operand, with `reg` in the `reg` field.
pub open spec fn mod_rm_sib_memory(reg: u8, a: Address) -> Seq<u8> {
    match a {
        Address::Based { base, displacement } => if base % 8 == 4 {
            seq![mod_rm(based_mode(base, displacement as int), reg, 4), sib(0, 4, 4)]
                + based_displacement(base, displacement as int)
        } else {
            seq![mod_rm(based_mode(base, displacement as int), reg, base)] + based_displacement(
                base,
                displacement as int,
            )
        },
        Address::BasedIndexed { base, index, scale, displacement } => seq![
            mod_rm(based_mode(base, displacement as int), reg, 4),
            sib(scale.spec_bits(), index, base),
        ] + based_displacement(base, displacement as int),
        Address::Indexed { index, scale, displacement } => seq![
            mod_rm(0, reg, 4),
            sib(scale.spec_bits(), index, 5),
        ] + disp32(displacement as int),
        Address::RipRelative { displacement } => seq![mod_rm(0, reg, 5)] + disp32(displacement as int),
        Address::Absolute { displacement } => seq![mod_rm(0, reg, 4), sib(0, 4, 5)] + disp32(
            displacement as int,
        ),
    }
}

/// `ModR/M` (and `SIB` and displacement) bytes for `rm`, with `reg` in the `reg` field.
pub open spec fn mod_rm_sib_bytes(reg: u8, rm: RegisterOrMemory) -> Seq<u8> {
    match rm {
        RegisterOrMemory::Register { index, .. } => seq![mod_rm(3, reg, index)],
        RegisterOrMemory::Memory(m) => mod_rm_sib_memory(reg, m.address),
    }
}

/// The segment override (prefix group 2) of `rm`, if any.
pub open spec fn segment_prefix(rm: RegisterOrMemory) -> Seq<u8> {
    match rm {
        RegisterOrMemory::Memory(m) => match m.segment {
            Some(s) => seq![s.spec_override_prefix()],
            None => seq![],
        },
        _ => seq![],
    }
}

/// The address-size override `0x67` (prefix group 4), for a 32-bit addressed memory operand.
pub open spec fn address_size_prefix(rm: RegisterOrMemory) -> Seq<u8> {
    match rm {
        RegisterOrMemory::Memory(m) => if m.address_size_32 {
            seq![0x67u8]
        } else {
            seq![]
        },
        _ => seq![],
    }
}

/// `REX.X`: the index register of `rm` is numbered 8 or above.
pub open spec fn extends_index(rm: RegisterOrMemory) -> bool {
    match rm {
        RegisterOrMemory::Memory(m) => match m.address {
            Address::BasedIndexed { index, .. } => index > 7,
            Address::Indexed { index, .. } => index > 7,
            _ => false,
        },
        _ => false,
    }
}

/// `REX.B`: the `rm` register or the base register of `rm` is numbered 8 or above.
pub open spec fn extends_base(rm: RegisterOrMemory) -> bool {
    match rm {
        RegisterOrMemory::Register { index, .. } => index > 7,
        RegisterOrMemory::Memory(m) => match m.address {
            Address::Based { base, .. } => base > 7,
            Address::BasedIndexed { base, .. } => base > 7,
            _ => false,
        },
    }
}

/// `rm` is one of `SPL`, `BPL`, `SIL`, `DIL`, reachable only with a `REX` byte.
pub open spec fn forces_rex(rm: RegisterOrMemory) -> bool {
    match rm {
        RegisterOrMemory::Register { index, byte_register } => byte_register && index > 3,
        _ => false,
    }
}

/// `0100WRXB`.
pub open spec fn rex_value(w: bool, r: bool, x: bool, b: bool) -> u8 {
    (0x40 + (if w { 8int } else { 0 }) + (if r { 4int } else { 0 }) + (if x { 2int } else { 0 }) + (
    if b {
        1int
    } else {
        0
    })) as u8
}

/// The `REX` byte, left out when it would be a bare `0x40` that no 8-bit register needs.
pub open spec fn rex_prefix(w: bool, r: bool, x: bool, b: bool, force: bool) -> Seq<u8> {
    if rex_value(w, r, x, b) == 0x40 && !force {
        seq![]
    } else {
        seq![rex_value(w, r, x, b)]
    }
}

/// The `VEX` prefix. `vvvv` is the number of the extra source register, stored
/// inverted; `r`, `x`, `b` are the extension bits, also stored inverted.
/// The two-byte form `C5` is used when `mmmmm` is `0F` (1), `W` is clear and
/// neither `X` nor `B` is needed; otherwise the three-byte form `C4`.
pub open spec fn vex_prefix(mmmmm: u8, l: u8, pp: u8, w: bool, vvvv: u8, r: bool, x: bool, b: bool) -> Seq<
    u8,
> {
    let tail = (15 - vvvv) * 8 + l * 4 + pp;
    if mmmmm == 1 && !w && !x && !b {
        seq![0xC5u8, ((if r { 0int } else { 0x80 }) + tail) as u8]
    } else {
        seq![
            0xC4u8,
            ((if r { 0int } else { 0x80 }) + (if x { 0int } else { 0x40 }) + (if b { 0int } else { 0x20 })
                + mmmmm) as u8,
            ((if w { 0x80int } else { 0 }) + tail) as u8,
        ]
    }
}

/// Fields of a `VEX` prefix are in range.
pub open spec fn vex_fields_wf(mmmmm: u8, l: u8, pp: u8, vvvv: u8) -> bool {
    1 <= mmmmm < 32 && l < 2 && pp < 4 && vvvv < 16
}

pub fn mod_rm_byte(mode: u8, reg: u8, rm: u8) -> (r: u8)
    requires
        mode < 4,
    ensures
        r == mod_rm(mode, reg, rm),
{
    mode * 64 + (reg % 8) * 8 + rm % 8
}

pub fn sib_byte(scale: u8, index: u8, base: u8) -> (r: u8)
    requires
        scale < 4,
    ensures
        r == sib(scale, index, base),
{
    scale * 64 + (index % 8) * 8 + base % 8
}

pub fn rex_byte(w: bool, r: bool, x: bool, b: bool) -> (v: u8)
    ensures
        v == rex_value(w, r, x, b),
        0x40 <= v <= 0x4F,
{
    let mut v: u8 = 0x40;
    if w {
        v = v + 8;
    }
    if r {
        v = v + 4;
    }
    if x {
        v = v + 2;
    }
    if b {
        v = v + 1;
    }
    v
}

/// One byte vector holding `byte`.
fn single(byte: u8) -> (r: Vec<u8>)
    ensures
        r@ == seq![byte],
{
    let mut out: Vec<u8> = Vec::new();
    out.push(byte);
    assert(out@ =~= seq![byte]);
    out
}

fn disp8_vec(d: i32) -> (r: Vec<u8>)
    requires
        fits_i8(d as int),
    ensures
        r@ == disp8(d as int),
{
    let (bits, width) = Immediate8Bit(d as i8).displacement();
    le_bytes_vec(bits as u128, width)
}

fn disp32_vec(d: i32) -> (r: Vec<u8>)
    ensures
        r@ == disp32(d as int),
{
    let (bits, width) = Immediate32Bit(d).displacement();
    le_bytes_vec(bits as u128, width)
}

/// Mode and displacement bytes for an address relative to `base`.
fn based_parts(base: u8, d: i32) -> (r: (u8, Vec<u8>))
    ensures
        r.0 == based_mode(base, d as int),
        r.1@ == based_displacement(base, d as int),
{
    if d == 0 && base % 8 != 5 {
        (0, Vec::new())
    } else if -128 <= d && d <= 127 {
        (1, disp8_vec(d))
    } else {
        (2, disp32_vec(d))
    }
}

/// `ModR/M` (and `SIB` and displacement) bytes for `rm`, with `reg` in the `reg` field.
pub fn mod_rm_sib_vec(reg: u8, rm: RegisterOrMemory) -> (r: Vec<u8>)
    ensures
        r@ == mod_rm_sib_bytes(reg, rm),
{
    match rm {
        RegisterOrMemory::Register { index, .. } => single(mod_rm_byte(3, reg, index)),
        RegisterOrMemory::Memory(m) => match m.address {
            Address::Based { base, displacement } => {
                let (mode, mut tail) = based_parts(base, displacement);
                let mut out: Vec<u8> = Vec::new();
                if base % 8 == 4 {
                    out.push(mod_rm_byte(mode, reg, 4));
                    out.push(sib_byte(0, 4, 4));
                } else {
                    out.push(mod_rm_byte(mode, reg, base));
                }
                out.append(&mut tail);
                assert(out@ =~= mod_rm_sib_bytes(reg, rm));
                out
            },
            Address::BasedIndexed { base, index, scale, displacement } => {
                let (mode, mut tail) = based_parts(base, displacement);
                let mut out: Vec<u8> = Vec::new();
                out.push(mod_rm_byte(mode, reg, 4));
                out.push(sib_byte(scale.bits(), index, base));
                out.append(&mut tail);
                assert(out@ =~= mod_rm_sib_bytes(reg, rm));
                out
            },
            Address::Indexed { index, scale, displacement } => {
                let mut tail = disp32_vec(displacement);
                let mut out: Vec<u8> = Vec::new();
                out.push(mod_rm_byte(0, reg, 4));
                out.push(sib_byte(scale.bits(), index, 5));
                out.append(&mut tail);
                assert(out@ =~= mod_rm_sib_bytes(reg, rm));
                out
            },
            Address::RipRelative { displacement } => {
                let mut tail = disp32_vec(displacement);
                let mut out: Vec<u8> = Vec::new();
                out.push(mod_rm_byte(0, reg, 5));
                out.append(&mut tail);
                assert(out@ =~= mod_rm_sib_bytes(reg, rm));
                out
            },
            Address::Absolute { displacement } => {
                let mut tail = disp32_vec(displacement);
                let mut out: Vec<u8> = Vec::new();
                out.push(mod_rm_byte(0, reg, 4));
                out.push(sib_byte(0, 4, 5));
                out.append(&mut tail);
                assert(out@ =~= mod_rm_sib_bytes(reg, rm));
                out
            },
        },
    }
}

/// The `VEX` prefix bytes.
pub fn vex_prefix_vec(mmmmm: u8, l: u8, pp: u8, w: bool, vvvv: u8, r: bool, x: bool, b: bool) -> (out: Vec<
    u8,
>)
    requires
        vex_fields_wf(mmmmm, l, pp, vvvv),
    ensures
        out@ == vex_prefix(mmmmm, l, pp, w, vvvv, r, x, b),
{
    let tail: u8 = (15 - vvvv) * 8 + l * 4 + pp;
    let not_r: u8 = if r {
        0
    } else {
        0x80
    };
    let mut out: Vec<u8> = Vec::new();
    if mmmmm == 1 && !w && !x && !b {
        out.push(0xC5);
        out.push(not_r + tail);
    } else {
        let not_x: u8 = if x {
            0
        } else {
            0x40
        };
        let not_b: u8 = if b {
            0
        } else {
            0x20
        };
        let w_bit: u8 = if w {
            0x80
        } else {
            0
        };
        out.push(0xC4);
        out.push(not_r + not_x + not_b + mmmmm);
        out.push(w_bit + tail);
    }
    assert(out@ =~= vex_prefix(mmmmm, l, pp, w, vvvv, r, x, b));
    out
}

} // verus!
