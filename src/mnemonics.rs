use vstd::prelude::*;
use crate::encoder::{
    byte_pair_vec, byte_vec, immediate_vec, register_in_opcode_instruction, rm_instruction,
    vex_instruction,
};
use crate::encoding::{RegisterOrMemory, disp32, disp8, fits_i8, vex_prefix};
use crate::immediates::{AsDisplacement, Immediate16Bit, Immediate32Bit, Immediate64Bit, Immediate8Bit};
use crate::memory::{MemoryOffset32Bit, MemoryOperand};
use crate::registers::{
    ControlRegister, DebugRegister, MMRegister, Register, Register32Bit, Register64Bit, Register8Bit,
    SegmentRegister, X87Register, XMMRegister, YMMRegister,
};
use crate::stream::{InstructionStream, Label, ShortJmpResult, ShortOverflow, StreamView};

verus! {

/// A general-purpose register (16, 32 or 64 bits) or a vector register in the `rm` field.
pub open spec fn direct(index: u8) -> RegisterOrMemory {
    RegisterOrMemory::Register { index, byte_register: false }
}

/// An 8-bit general-purpose register in the `rm` field.
pub open spec fn direct_8_bit(index: u8) -> RegisterOrMemory {
    RegisterOrMemory::Register { index, byte_register: true }
}

fn direct_operand(index: u8) -> (r: RegisterOrMemory)
    ensures
        r == direct(index),
{
    RegisterOrMemory::Register { index, byte_register: false }
}

/// Effect of a branch with a one-byte displacement to `label`, whose opcode is
/// `opcode`: with the label attached, the branch is written if the displacement
/// fits, and otherwise nothing at all is written; with the label unattached, the
/// displacement byte is reserved and queued. The bookmark is left at the
/// displacement byte whenever one is written.
pub open spec fn short_branch(
    s: StreamView,
    opcode: Seq<u8>,
    label: Label,
    r: ShortJmpResult,
    t: StreamView,
) -> bool {
    let site = s.code.len() + opcode.len();
    let start = StreamView { bookmark: site as nat, ..s };
    match s.labels[label.0 as int] {
        Some(target) => if fits_i8(target - (site + 1)) {
            r is Ok && t == start.emitted(opcode + disp8(target - (site + 1)))
        } else {
            r == Err::<(), ShortOverflow>(ShortOverflow) && t == s
        },
        None => r is Ok && t == (StreamView {
            pending8: s.pending8.push((label.0, site as usize)),
            ..start.emitted(opcode + seq![0u8])
        }),
    }
}

/// Effect of a branch with a four-byte displacement to `label`, whose opcode is
/// `opcode`: the displacement is written if the label is attached, else reserved
/// and queued.
pub open spec fn near_branch(s: StreamView, opcode: Seq<u8>, label: Label, t: StreamView) -> bool {
    let site = s.code.len() + opcode.len();
    match s.labels[label.0 as int] {
        Some(target) => t == s.emitted(opcode + disp32(target - (site + 4))),
        None => t == (StreamView {
            pending32: s.pending32.push((label.0, site as usize)),
            ..s.emitted(opcode + Seq::new(4, |i: int| 0u8))
        }),
    }
}

impl InstructionStream {
    /// `RET`: `C3`.
    pub fn ret(&mut self)
        requires
            old(self).wf(),
            old(self)@.room() >= 1,
        ensures
            final(self).wf(),
            final(self)@ == old(self)@.emitted(seq![0xC3u8]),
    {
        self.opcode_1(0xC3)
    }

    /// `NOP`: `90`.
    pub fn nop(&mut self)
        requires
            old(self).wf(),
            old(self)@.room() >= 1,
        ensures
            final(self).wf(),
            final(self)@ == old(self)@.emitted(seq![0x90u8]),
    {
        self.opcode_1(0x90)
    }

    /// `FWAIT`: `9B`.
    pub fn fwait(&mut self)
        requires
            old(self).wf(),
            old(self)@.room() >= 1,
        ensures
            final(self).wf(),
            final(self)@ == old(self)@.emitted(seq![0x9Bu8]),
    {
        self.prefix_fwait(0x9B)
    }

    /// `VZEROUPPER`: `VEX.128.0F.WIG 77`.
    pub fn vzeroupper(&mut self)
        requires
            old(self).wf(),
            old(self)@.room() >= 3,
        ensures
            final(self).wf(),
            final(self)@ == old(self)@.emitted(vex_prefix(1, 0, 0, false, 0, false, false, false) + seq![0x77u8]),
    {
        let ghost s = old(self)@;
        self.vex_5(1, 0, 0, false, 0);
        self.opcode_1(0x77);
        assert(self@.code =~= s.code + (vex_prefix(1, 0, 0, false, 0, false, false, false) + seq![0x77u8]));
    }

    /// `MOV r64, imm64`: `REX.W B8+r io`.
    pub fn mov_r64_imm64(&mut self, dst: Register64Bit, immediate: Immediate64Bit)
        requires
            old(self).wf(),
            old(self)@.room() >= register_in_opcode_instruction(
                false,
                true,
                0xB8,
                dst.spec_index(),
                false,
                immediate.displacement_bytes(),
            ).len(),
        ensures
            final(self).wf(),
            final(self)@ == old(self)@.emitted(
                register_in_opcode_instruction(
                    false,
                    true,
                    0xB8,
                    dst.spec_index(),
                    false,
                    immediate.displacement_bytes(),
                ),
            ),
    {
        let imm = immediate_vec(immediate);
        self.emit_register_in_opcode_instruction(false, true, 0xB8, dst.index(), false, imm.as_slice())
    }

    /// `PUSH r64`: `50+r`.
    pub fn push_r64(&mut self, register: Register64Bit)
        requires
            old(self).wf(),
            old(self)@.room() >= register_in_opcode_instruction(
                false,
                false,
                0x50,
                register.spec_index(),
                false,
                seq![],
            ).len(),
        ensures
            final(self).wf(),
            final(self)@ == old(self)@.emitted(
                register_in_opcode_instruction(false, false, 0x50, register.spec_index(), false, seq![]),
            ),
    {
        let empty: Vec<u8> = Vec::new();
        self.emit_register_in_opcode_instruction(false, false, 0x50, register.index(), false, empty.as_slice())
    }

    /// `POP r64`: `58+r`.
    pub fn pop_r64(&mut self, register: Register64Bit)
        requires
            old(self).wf(),
            old(self)@.room() >= register_in_opcode_instruction(
                false,
                false,
                0x58,
                register.spec_index(),
                false,
                seq![],
            ).len(),
        ensures
            final(self).wf(),
            final(self)@ == old(self)@.emitted(
                register_in_opcode_instruction(false, false, 0x58, register.spec_index(), false, seq![]),
            ),
    {
        let empty: Vec<u8> = Vec::new();
        self.emit_register_in_opcode_instruction(false, false, 0x58, register.index(), false, empty.as_slice())
    }

    /// `MOV r/m64, r64` between registers: `REX.W 89 /r`.
    pub fn mov_r64_r64(&mut self, dst: Register64Bit, src: Register64Bit)
        requires
            old(self).wf(),
            old(self)@.room() >= rm_instruction(
                false,
                true,
                seq![0x89u8],
                src.spec_index(),
                false,
                direct(dst.spec_index()),
                seq![],
            ).len(),
        ensures
            final(self).wf(),
            final(self)@ == old(self)@.emitted(
                rm_instruction(false, true, seq![0x89u8], src.spec_index(), false, direct(dst.spec_index()), seq![]),
            ),
    {
        let opcode = byte_vec(0x89);
        let empty: Vec<u8> = Vec::new();
        self.emit_rm_instruction(
            false,
            true,
            opcode.as_slice(),
            src.index(),
            false,
            direct_operand(dst.index()),
            empty.as_slice(),
        )
    }

    /// `MOV r/m32, r32` between registers: `89 /r`.
    pub fn mov_r32_r32(&mut self, dst: Register32Bit, src: Register32Bit)
        requires
            old(self).wf(),
            old(self)@.room() >= rm_instruction(
                false,
                false,
                seq![0x89u8],
                src.spec_index(),
                false,
                direct(dst.spec_index()),
                seq![],
            ).len(),
        ensures
            final(self).wf(),
            final(self)@ == old(self)@.emitted(
                rm_instruction(false, false, seq![0x89u8], src.spec_index(), false, direct(dst.spec_index()), seq![]),
            ),
    {
        let opcode = byte_vec(0x89);
        let empty: Vec<u8> = Vec::new();
        self.emit_rm_instruction(
            false,
            false,
            opcode.as_slice(),
            src.index(),
            false,
            direct_operand(dst.index()),
            empty.as_slice(),
        )
    }

    /// `MOV r/m8, r8` between registers: `88 /r`.
    pub fn mov_r8_r8(&mut self, dst: Register8Bit, src: Register8Bit)
        requires
            old(self).wf(),
            old(self)@.room() >= rm_instruction(
                false,
                false,
                seq![0x88u8],
                src.spec_index(),
                src.spec_index() > 3,
                direct_8_bit(dst.spec_index()),
                seq![],
            ).len(),
        ensures
            final(self).wf(),
            final(self)@ == old(self)@.emitted(
                rm_instruction(
                    false,
                    false,
                    seq![0x88u8],
                    src.spec_index(),
                    src.spec_index() > 3,
                    direct_8_bit(dst.spec_index()),
                    seq![],
                ),
            ),
    {
        let opcode = byte_vec(0x88);
        let empty: Vec<u8> = Vec::new();
        let rm = RegisterOrMemory::Register { index: dst.index(), byte_register: true };
        self.emit_rm_instruction(
            false,
            false,
            opcode.as_slice(),
            src.index(),
            src.requires_rex_byte(),
            rm,
            empty.as_slice(),
        )
    }

    /// `MOV r64, m64`: `REX.W 8B /r`.
    pub fn mov_r64_m64(&mut self, dst: Register64Bit, src: MemoryOperand)
        requires
            old(self).wf(),
            src.wf(),
            old(self)@.room() >= rm_instruction(
                false,
                true,
                seq![0x8Bu8],
                dst.spec_index(),
                false,
                RegisterOrMemory::Memory(src),
                seq![],
            ).len(),
        ensures
            final(self).wf(),
            final(self)@ == old(self)@.emitted(
                rm_instruction(
                    false,
                    true,
                    seq![0x8Bu8],
                    dst.spec_index(),
                    false,
                    RegisterOrMemory::Memory(src),
                    seq![],
                ),
            ),
    {
        let opcode = byte_vec(0x8B);
        let empty: Vec<u8> = Vec::new();
        self.emit_rm_instruction(
            false,
            true,
            opcode.as_slice(),
            dst.index(),
            false,
            RegisterOrMemory::Memory(src),
            empty.as_slice(),
        )
    }

    /// `MOV m64, r64`: `REX.W 89 /r`.
    pub fn mov_m64_r64(&mut self, dst: MemoryOperand, src: Register64Bit)
        requires
            old(self).wf(),
            dst.wf(),
            old(self)@.room() >= rm_instruction(
                false,
                true,
                seq![0x89u8],
                src.spec_index(),
                false,
                RegisterOrMemory::Memory(dst),
                seq![],
            ).len(),
        ensures
            final(self).wf(),
            final(self)@ == old(self)@.emitted(
                rm_instruction(
                    false,
                    true,
                    seq![0x89u8],
                    src.spec_index(),
                    false,
                    RegisterOrMemory::Memory(dst),
                    seq![],
                ),
            ),
    {
        let opcode = byte_vec(0x89);
        let empty: Vec<u8> = Vec::new();
        self.emit_rm_instruction(
            false,
            true,
            opcode.as_slice(),
            src.index(),
            false,
            RegisterOrMemory::Memory(dst),
            empty.as_slice(),
        )
    }

    /// `MOV m32, r32`: `89 /r`.
    pub fn mov_m32_r32(&mut self, dst: MemoryOperand, src: Register32Bit)
        requires
            old(self).wf(),
            dst.wf(),
            old(self)@.room() >= rm_instruction(
                false,
                false,
                seq![0x89u8],
                src.spec_index(),
                false,
                RegisterOrMemory::Memory(dst),
                seq![],
            ).len(),
        ensures
            final(self).wf(),
            final(self)@ == old(self)@.emitted(
                rm_instruction(
                    false,
                    false,
                    seq![0x89u8],
                    src.spec_index(),
                    false,
                    RegisterOrMemory::Memory(dst),
                    seq![],
                ),
            ),
    {
        let opcode = byte_vec(0x89);
        let empty: Vec<u8> = Vec::new();
        self.emit_rm_instruction(
            false,
            false,
            opcode.as_slice(),
            src.index(),
            false,
            RegisterOrMemory::Memory(dst),
            empty.as_slice(),
        )
    }

    /// `LEA r64, m`: `REX.W 8D /r`.
    pub fn lea_r64_m(&mut self, dst: Register64Bit, src: MemoryOperand)
        requires
            old(self).wf(),
            src.wf(),
            old(self)@.room() >= rm_instruction(
                false,
                true,
                seq![0x8Du8],
                dst.spec_index(),
                false,
                RegisterOrMemory::Memory(src),
                seq![],
            ).len(),
        ensures
            final(self).wf(),
            final(self)@ == old(self)@.emitted(
                rm_instruction(
                    false,
                    true,
                    seq![0x8Du8],
                    dst.spec_index(),
                    false,
                    RegisterOrMemory::Memory(src),
                    seq![],
                ),
            ),
    {
        let opcode = byte_vec(0x8D);
        let empty: Vec<u8> = Vec::new();
        self.emit_rm_instruction(
            false,
            true,
            opcode.as_slice(),
            dst.index(),
            false,
            RegisterOrMemory::Memory(src),
            empty.as_slice(),
        )
    }

    /// `ADD r/m32, imm8` (sign-extended): `83 /0 ib`.
    pub fn add_r32_imm8(&mut self, dst: Register32Bit, immediate: Immediate8Bit)
        requires
            old(self).wf(),
            old(self)@.room() >= rm_instruction(
                false,
                false,
                seq![0x83u8],
                0,
                false,
                direct(dst.spec_index()),
                immediate.displacement_bytes(),
            ).len(),
        ensures
            final(self).wf(),
            final(self)@ == old(self)@.emitted(
                rm_instruction(
                    false,
                    false,
                    seq![0x83u8],
                    0,
                    false,
                    direct(dst.spec_index()),
                    immediate.displacement_bytes(),
                ),
            ),
    {
        let opcode = byte_vec(0x83);
        let imm = immediate_vec(immediate);
        self.emit_rm_instruction(false, false, opcode.as_slice(), 0, false, direct_operand(dst.index()), imm.as_slice())
    }

    /// `ADD r/m64, imm8` (sign-extended): `REX.W 83 /0 ib`.
    pub fn add_r64_imm8(&mut self, dst: Register64Bit, immediate: Immediate8Bit)
        requires
            old(self).wf(),
            old(self)@.room() >= rm_instruction(
                false,
                true,
                seq![0x83u8],
                0,
                false,
                direct(dst.spec_index()),
                immediate.displacement_bytes(),
            ).len(),
        ensures
            final(self).wf(),
            final(self)@ == old(self)@.emitted(
                rm_instruction(
                    false,
                    true,
                    seq![0x83u8],
                    0,
                    false,
                    direct(dst.spec_index()),
                    immediate.displacement_bytes(),
                ),
            ),
    {
        let opcode = byte_vec(0x83);
        let imm = immediate_vec(immediate);
        self.emit_rm_instruction(false, true, opcode.as_slice(), 0, false, direct_operand(dst.index()), imm.as_slice())
    }

    /// `SUB r/m64, imm8` (sign-extended): `REX.W 83 /5 ib`.
    pub fn sub_r64_imm8(&mut self, dst: Register64Bit, immediate: Immediate8Bit)
        requires
            old(self).wf(),
            old(self)@.room() >= rm_instruction(
                false,
                true,
                seq![0x83u8],
                5,
                false,
                direct(dst.spec_index()),
                immediate.displacement_bytes(),
            ).len(),
        ensures
            final(self).wf(),
            final(self)@ == old(self)@.emitted(
                rm_instruction(
                    false,
                    true,
                    seq![0x83u8],
                    5,
                    false,
                    direct(dst.spec_index()),
                    immediate.displacement_bytes(),
                ),
            ),
    {
        let opcode = byte_vec(0x83);
        let imm = immediate_vec(immediate);
        self.emit_rm_instruction(false, true, opcode.as_slice(), 5, false, direct_operand(dst.index()), imm.as_slice())
    }

    /// `ADD EAX, imm32`, the short form for the accumulator: `05 id`.
    pub fn add_eax_imm32(&mut self, immediate: Immediate32Bit)
        requires
            old(self).wf(),
            old(self)@.room() >= 5,
        ensures
            final(self).wf(),
            final(self)@ == old(self)@.emitted(seq![0x05u8] + immediate.displacement_bytes()),
    {
        let ghost s = old(self)@;
        proof {
            crate::emitter::lemma_le_bytes_len(crate::immediates::twos_complement(immediate.0 as int, 4), 4);
        }
        self.opcode_1(0x05);
        self.displacement_immediate_1(immediate);
        assert(self@.code =~= s.code + (seq![0x05u8] + immediate.displacement_bytes()));
    }

    /// `ADD r/m64, r64` between registers: `REX.W 01 /r`.
    pub fn add_r64_r64(&mut self, dst: Register64Bit, src: Register64Bit)
        requires
            old(self).wf(),
            old(self)@.room() >= rm_instruction(
                false,
                true,
                seq![0x01u8],
                src.spec_index(),
                false,
                direct(dst.spec_index()),
                seq![],
            ).len(),
        ensures
            final(self).wf(),
            final(self)@ == old(self)@.emitted(
                rm_instruction(false, true, seq![0x01u8], src.spec_index(), false, direct(dst.spec_index()), seq![]),
            ),
    {
        let opcode = byte_vec(0x01);
        let empty: Vec<u8> = Vec::new();
        self.emit_rm_instruction(
            false,
            true,
            opcode.as_slice(),
            src.index(),
            false,
            direct_operand(dst.index()),
            empty.as_slice(),
        )
    }

    /// `MOV r/m16, imm16` to a 32-bit register's low half: `66 C7 /0 iw`.
    pub fn mov_r16_imm16(&mut self, dst: Register32Bit, immediate: Immediate16Bit)
        requires
            old(self).wf(),
            old(self)@.room() >= rm_instruction(
                true,
                false,
                seq![0xC7u8],
                0,
                false,
                direct(dst.spec_index()),
                immediate.displacement_bytes(),
            ).len(),
        ensures
            final(self).wf(),
            final(self)@ == old(self)@.emitted(
                rm_instruction(
                    true,
                    false,
                    seq![0xC7u8],
                    0,
                    false,
                    direct(dst.spec_index()),
                    immediate.displacement_bytes(),
                ),
            ),
    {
        let opcode = byte_vec(0xC7);
        let imm = immediate_vec(immediate);
        self.emit_rm_instruction(true, false, opcode.as_slice(), 0, false, direct_operand(dst.index()), imm.as_slice())
    }

    /// `ENTER imm16, imm8`: `C8 iw ib`.
    pub fn enter(&mut self, size: Immediate16Bit, nesting_level: Immediate8Bit)
        requires
            old(self).wf(),
            old(self)@.room() >= 4,
        ensures
            final(self).wf(),
            final(self)@ == old(self)@.emitted(
                seq![0xC8u8] + size.displacement_bytes() + nesting_level.displacement_bytes(),
            ),
    {
        let ghost s = old(self)@;
        self.opcode_1(0xC8);
        self.displacement_immediate_2(nesting_level, size);
        assert(self@.code =~= s.code + (seq![0xC8u8] + size.displacement_bytes()
            + nesting_level.displacement_bytes()));
    }

    /// `MOV RAX, moffs64`: `REX.W A1` and the 64-bit offset, after the segment
    /// override if the offset has one.
    pub fn mov_rax_moffs64(&mut self, offset: MemoryOffset32Bit)
        requires
            old(self).wf(),
            old(self)@.room() >= 10 + (if offset.spec_segment_register() is Some { 1int } else { 0 }),
        ensures
            final(self).wf(),
            final(self)@ == old(self)@.emitted(
                (match offset.spec_segment_register() {
                    Some(segment) => seq![segment.spec_override_prefix()],
                    None => seq![],
                }) + seq![0x48u8, 0xA1u8] + offset.displacement_bytes(),
            ),
    {
        let ghost s = old(self)@;
        let ghost segment_bytes: Seq<u8> = match offset.spec_segment_register() {
            Some(segment) => seq![segment.spec_override_prefix()],
            None => seq![],
        };
        proof {
            crate::emitter::lemma_le_bytes_len(
                crate::immediates::twos_complement(offset.spec_offset().0 as int, 8),
                8,
            );
        }
        match offset.get_segment_register() {
            Some(segment) => self.emit_byte(segment.override_prefix()),
            None => {
                assert(self@.code + seq![] =~= self@.code);
            },
        }
        self.rex_1(0x48);
        self.opcode_1(0xA1);
        self.displacement_immediate_1(offset);
        assert(self@.code =~= s.code + (segment_bytes + seq![0x48u8, 0xA1u8] + offset.displacement_bytes()));
    }

    /// `PADDB mm, mm/m64` between registers: `0F FC /r`.
    pub fn paddb_mm_mm(&mut self, dst: MMRegister, src: MMRegister)
        requires
            old(self).wf(),
            old(self)@.room() >= 3,
        ensures
            final(self).wf(),
            final(self)@ == old(self)@.emitted(
                rm_instruction(
                    false,
                    false,
                    seq![0x0Fu8, 0xFCu8],
                    dst.spec_index(),
                    false,
                    direct(src.spec_index()),
                    seq![],
                ),
            ),
    {
        let opcode = byte_pair_vec(0x0F, 0xFC);
        let empty: Vec<u8> = Vec::new();
        self.emit_rm_instruction(
            false,
            false,
            opcode.as_slice(),
            dst.index(),
            false,
            direct_operand(src.index()),
            empty.as_slice(),
        )
    }

    /// `FADD ST(0), ST(i)`: `D8 C0+i`.
    pub fn fadd_st0_sti(&mut self, src: X87Register)
        requires
            old(self).wf(),
            old(self)@.room() >= 2,
        ensures
            final(self).wf(),
            final(self)@ == old(self)@.emitted(seq![0xD8u8, (0xC0 + src.spec_index()) as u8]),
    {
        self.opcode_2(0xD8, 0xC0 + src.to_opcode())
    }

    /// `FLD ST(i)`: `D9 C0+i`.
    pub fn fld_sti(&mut self, src: X87Register)
        requires
            old(self).wf(),
            old(self)@.room() >= 2,
        ensures
            final(self).wf(),
            final(self)@ == old(self)@.emitted(seq![0xD9u8, (0xC0 + src.spec_index()) as u8]),
    {
        self.opcode_2(0xD9, 0xC0 + src.to_opcode())
    }

    /// `VADDPS xmm1, xmm2, xmm3/m128` between registers: `VEX.128.0F.WIG 58 /r`.
    pub fn vaddps_xmm_xmm_xmm(&mut self, dst: XMMRegister, src1: XMMRegister, src2: XMMRegister)
        requires
            old(self).wf(),
            old(self)@.room() >= vex_instruction(
                1,
                0,
                0,
                false,
                src1.spec_index(),
                0x58,
                dst.spec_index(),
                direct(src2.spec_index()),
            ).len(),
        ensures
            final(self).wf(),
            final(self)@ == old(self)@.emitted(
                vex_instruction(1, 0, 0, false, src1.spec_index(), 0x58, dst.spec_index(), direct(src2.spec_index())),
            ),
    {
        self.emit_vex_instruction(1, 0, 0, false, src1.index(), 0x58, dst.index(), direct_operand(src2.index()))
    }

    /// `VADDPS ymm1, ymm2, ymm3/m256` between registers: `VEX.256.0F.WIG 58 /r`.
    pub fn vaddps_ymm_ymm_ymm(&mut self, dst: YMMRegister, src1: YMMRegister, src2: YMMRegister)
        requires
            old(self).wf(),
            old(self)@.room() >= vex_instruction(
                1,
                1,
                0,
                false,
                src1.spec_index(),
                0x58,
                dst.spec_index(),
                direct(src2.spec_index()),
            ).len(),
        ensures
            final(self).wf(),
            final(self)@ == old(self)@.emitted(
                vex_instruction(1, 1, 0, false, src1.spec_index(), 0x58, dst.spec_index(), direct(src2.spec_index())),
            ),
    {
        self.emit_vex_instruction(1, 1, 0, false, src1.index(), 0x58, dst.index(), direct_operand(src2.index()))
    }

    /// `VADDPS ymm1, ymm2, m256`: `VEX.256.0F.WIG 58 /r`.
    pub fn vaddps_ymm_ymm_m256(&mut self, dst: YMMRegister, src1: YMMRegister, src2: MemoryOperand)
        requires
            old(self).wf(),
            src2.wf(),
            old(self)@.room() >= vex_instruction(
                1,
                1,
                0,
                false,
                src1.spec_index(),
                0x58,
                dst.spec_index(),
                RegisterOrMemory::Memory(src2),
            ).len(),
        ensures
            final(self).wf(),
            final(self)@ == old(self)@.emitted(
                vex_instruction(
                    1,
                    1,
                    0,
                    false,
                    src1.spec_index(),
                    0x58,
                    dst.spec_index(),
                    RegisterOrMemory::Memory(src2),
                ),
            ),
    {
        self.emit_vex_instruction(1, 1, 0, false, src1.index(), 0x58, dst.index(), RegisterOrMemory::Memory(src2))
    }

    /// `VPERMQ ymm1, ymm2, imm8`: `VEX.256.66.0F3A.W1 00 /r ib`. Being `W1` in
    /// map `0F3A`, it always takes the three-byte `VEX`.
    pub fn vpermq_ymm_ymm_imm8(&mut self, dst: YMMRegister, src: YMMRegister, immediate: Immediate8Bit)
        requires
            old(self).wf(),
            old(self)@.room() >= (vex_instruction(3, 1, 1, true, 0, 0x00, dst.spec_index(), direct(src.spec_index()))
                + immediate.displacement_bytes()).len(),
        ensures
            final(self).wf(),
            final(self)@ == old(self)@.emitted(
                vex_instruction(3, 1, 1, true, 0, 0x00, dst.spec_index(), direct(src.spec_index()))
                    + immediate.displacement_bytes(),
            ),
    {
        let ghost s = old(self)@;
        proof {
            crate::emitter::lemma_le_bytes_len(crate::immediates::twos_complement(immediate.0 as int, 1), 1);
        }
        self.emit_vex_instruction(3, 1, 1, true, 0, 0x00, dst.index(), direct_operand(src.index()));
        self.displacement_immediate_1(immediate);
        assert(self@.code =~= s.code + (vex_instruction(
            3,
            1,
            1,
            true,
            0,
            0x00,
            dst.spec_index(),
            direct(src.spec_index()),
        ) + immediate.displacement_bytes()));
    }

    /// `MOV r64, CRn`: `0F 20 /r`; the operand size is always 64 bits.
    pub fn mov_r64_cr(&mut self, dst: Register64Bit, src: ControlRegister)
        requires
            old(self).wf(),
            old(self)@.room() >= rm_instruction(false, false, seq![0x0Fu8, 0x20u8], src.spec_index(), false, direct(dst.spec_index()), seq![]).len(),
        ensures
            final(self).wf(),
            final(self)@ == old(self)@.emitted(
                rm_instruction(false, false, seq![0x0Fu8, 0x20u8], src.spec_index(), false, direct(dst.spec_index()), seq![]),
            ),
    {
        let opcode = byte_pair_vec(0x0F, 0x20);
        let empty: Vec<u8> = Vec::new();
        self.emit_rm_instruction(false, false, opcode.as_slice(), src.index(), false, direct_operand(dst.index()), empty.as_slice())
    }

    /// `MOV CRn, r64`: `0F 22 /r`.
    pub fn mov_cr_r64(&mut self, dst: ControlRegister, src: Register64Bit)
        requires
            old(self).wf(),
            old(self)@.room() >= rm_instruction(false, false, seq![0x0Fu8, 0x22u8], dst.spec_index(), false, direct(src.spec_index()), seq![]).len(),
        ensures
            final(self).wf(),
            final(self)@ == old(self)@.emitted(
                rm_instruction(false, false, seq![0x0Fu8, 0x22u8], dst.spec_index(), false, direct(src.spec_index()), seq![]),
            ),
    {
        let opcode = byte_pair_vec(0x0F, 0x22);
        let empty: Vec<u8> = Vec::new();
        self.emit_rm_instruction(false, false, opcode.as_slice(), dst.index(), false, direct_operand(src.index()), empty.as_slice())
    }

    /// `MOV r64, DRn`: `0F 21 /r`.
    pub fn mov_r64_dr(&mut self, dst: Register64Bit, src: DebugRegister)
        requires
            old(self).wf(),
            old(self)@.room() >= rm_instruction(false, false, seq![0x0Fu8, 0x21u8], src.spec_index(), false, direct(dst.spec_index()), seq![]).len(),
        ensures
            final(self).wf(),
            final(self)@ == old(self)@.emitted(
                rm_instruction(false, false, seq![0x0Fu8, 0x21u8], src.spec_index(), false, direct(dst.spec_index()), seq![]),
            ),
    {
        let opcode = byte_pair_vec(0x0F, 0x21);
        let empty: Vec<u8> = Vec::new();
        self.emit_rm_instruction(false, false, opcode.as_slice(), src.index(), false, direct_operand(dst.index()), empty.as_slice())
    }

    /// `MOV DRn, r64`: `0F 23 /r`.
    pub fn mov_dr_r64(&mut self, dst: DebugRegister, src: Register64Bit)
        requires
            old(self).wf(),
            old(self)@.room() >= rm_instruction(false, false, seq![0x0Fu8, 0x23u8], dst.spec_index(), false, direct(src.spec_index()), seq![]).len(),
        ensures
            final(self).wf(),
            final(self)@ == old(self)@.emitted(
                rm_instruction(false, false, seq![0x0Fu8, 0x23u8], dst.spec_index(), false, direct(src.spec_index()), seq![]),
            ),
    {
        let opcode = byte_pair_vec(0x0F, 0x23);
        let empty: Vec<u8> = Vec::new();
        self.emit_rm_instruction(false, false, opcode.as_slice(), dst.index(), false, direct_operand(src.index()), empty.as_slice())
    }

    /// `MOV Sreg, r32`: `8E /r`.
    pub fn mov_sreg_r32(&mut self, dst: SegmentRegister, src: Register32Bit)
        requires
            old(self).wf(),
            old(self)@.room() >= rm_instruction(false, false, seq![0x8Eu8], dst.number(), false, direct(src.spec_index()), seq![]).len(),
        ensures
            final(self).wf(),
            final(self)@ == old(self)@.emitted(
                rm_instruction(false, false, seq![0x8Eu8], dst.number(), false, direct(src.spec_index()), seq![]),
            ),
    {
        let opcode = byte_vec(0x8E);
        let empty: Vec<u8> = Vec::new();
        self.emit_rm_instruction(false, false, opcode.as_slice(), dst.index(), false, direct_operand(src.index()), empty.as_slice())
    }

    /// `MOV r32, Sreg`: `8C /r`.
    pub fn mov_r32_sreg(&mut self, dst: Register32Bit, src: SegmentRegister)
        requires
            old(self).wf(),
            old(self)@.room() >= rm_instruction(false, false, seq![0x8Cu8], src.number(), false, direct(dst.spec_index()), seq![]).len(),
        ensures
            final(self).wf(),
            final(self)@ == old(self)@.emitted(
                rm_instruction(false, false, seq![0x8Cu8], src.number(), false, direct(dst.spec_index()), seq![]),
            ),
    {
        let opcode = byte_vec(0x8C);
        let empty: Vec<u8> = Vec::new();
        self.emit_rm_instruction(false, false, opcode.as_slice(), src.index(), false, direct_operand(dst.index()), empty.as_slice())
    }

    /// `REP MOVSB`: `F3 A4`.
    pub fn rep_movsb(&mut self)
        requires
            old(self).wf(),
            old(self)@.room() >= 2,
        ensures
            final(self).wf(),
            final(self)@ == old(self)@.emitted(seq![0xF3u8, 0xA4u8]),
    {
        let ghost s = old(self)@;
        self.prefix_group1(0xF3);
        self.opcode_1(0xA4);
        assert(self@.code =~= s.code + seq![0xF3u8, 0xA4u8]);
    }

    /// `REP STOSQ`: `F3 REX.W AB`; the group 1 prefix comes before `REX`.
    pub fn rep_stosq(&mut self)
        requires
            old(self).wf(),
            old(self)@.room() >= 3,
        ensures
            final(self).wf(),
            final(self)@ == old(self)@.emitted(seq![0xF3u8, 0x48u8, 0xABu8]),
    {
        let ghost s = old(self)@;
        self.prefix_group1(0xF3);
        self.rex_1(0x48);
        self.opcode_1(0xAB);
        assert(self@.code =~= s.code + seq![0xF3u8, 0x48u8, 0xABu8]);
    }

    /// A branch with a one-byte displacement: the opcode, then the displacement.
    /// A branch to an attached label that is too far is not written at all.
    fn short_branch_to_label(&mut self, opcode: u8, label: Label) -> (r: ShortJmpResult)
        requires
            old(self).wf(),
            old(self)@.has_label(label),
            old(self)@.room() >= 2,
        ensures
            final(self).wf(),
            short_branch(old(self)@, seq![opcode], label, r, final(self)@),
    {
        let ghost s = old(self)@;
        let start = self.instruction_pointer();
        proof {
            self.lemma_view_wf();
        }
        if let Some(target) = self.label_location(label) {
            assert(s.labels[label.0 as int] is Some);
            let displacement: i64 = target as i64 - (start as i64 + 2);
            if displacement < -128 || displacement > 127 {
                return Err(ShortOverflow);
            }
        }
        self.opcode_1(opcode);
        let r = self.displacement_label_8bit(label);
        proof {
            let site = s.code.len() + 1;
            match s.labels[label.0 as int] {
                Some(target) => {
                    assert(self@.code =~= s.code + (seq![opcode] + disp8(target - (site + 1))));
                },
                None => {
                    assert(self@.code =~= s.code + (seq![opcode] + seq![0u8]));
                },
            }
        }
        r
    }

    /// A branch with a four-byte displacement: the opcode bytes, then the displacement.
    fn near_branch_to_label(&mut self, opcode: &[u8], label: Label)
        requires
            old(self).wf(),
            old(self)@.has_label(label),
            old(self)@.room() >= opcode@.len() + 4,
        ensures
            final(self).wf(),
            near_branch(old(self)@, opcode@, label, final(self)@),
    {
        let ghost s = old(self)@;
        self.emit_bytes(opcode);
        self.displacement_label_32bit(label);
        proof {
            let site = s.code.len() + opcode@.len();
            match s.labels[label.0 as int] {
                Some(target) => {
                    assert(self@.code =~= s.code + (opcode@ + disp32(target - (site + 4))));
                },
                None => {
                    assert(self@.code =~= s.code + (opcode@ + Seq::new(4, |i: int| 0u8)));
                },
            }
        }
    }

    /// `JMP rel8` to a label: `EB cb`. Fails, leaving the stream as it was, when the
    /// label is attached too far away.
    pub fn jmp_rel8_label(&mut self, label: Label) -> (r: ShortJmpResult)
        requires
            old(self).wf(),
            old(self)@.has_label(label),
            old(self)@.room() >= 2,
        ensures
            final(self).wf(),
            short_branch(old(self)@, seq![0xEBu8], label, r, final(self)@),
    {
        self.short_branch_to_label(0xEB, label)
    }

    /// `JE rel8` to a label: `74 cb`.
    pub fn je_rel8_label(&mut self, label: Label) -> (r: ShortJmpResult)
        requires
            old(self).wf(),
            old(self)@.has_label(label),
            old(self)@.room() >= 2,
        ensures
            final(self).wf(),
            short_branch(old(self)@, seq![0x74u8], label, r, final(self)@),
    {
        self.short_branch_to_label(0x74, label)
    }

    /// `JNE rel8` to a label: `75 cb`.
    pub fn jne_rel8_label(&mut self, label: Label) -> (r: ShortJmpResult)
        requires
            old(self).wf(),
            old(self)@.has_label(label),
            old(self)@.room() >= 2,
        ensures
            final(self).wf(),
            short_branch(old(self)@, seq![0x75u8], label, r, final(self)@),
    {
        self.short_branch_to_label(0x75, label)
    }

    /// `JMP rel32` to a label: `E9 cd`.
    pub fn jmp_rel32_label(&mut self, label: Label)
        requires
            old(self).wf(),
            old(self)@.has_label(label),
            old(self)@.room() >= 5,
        ensures
            final(self).wf(),
            near_branch(old(self)@, seq![0xE9u8], label, final(self)@),
    {
        let opcode = byte_vec(0xE9);
        self.near_branch_to_label(opcode.as_slice(), label)
    }

    /// `JE rel32` to a label: `0F 84 cd`.
    pub fn je_rel32_label(&mut self, label: Label)
        requires
            old(self).wf(),
            old(self)@.has_label(label),
            old(self)@.room() >= 6,
        ensures
            final(self).wf(),
            near_branch(old(self)@, seq![0x0Fu8, 0x84u8], label, final(self)@),
    {
        let opcode = byte_pair_vec(0x0F, 0x84);
        self.near_branch_to_label(opcode.as_slice(), label)
    }

    /// `CALL rel32` to a label: `E8 cd`.
    pub fn call_rel32_label(&mut self, label: Label)
        requires
            old(self).wf(),
            old(self)@.has_label(label),
            old(self)@.room() >= 5,
        ensures
            final(self).wf(),
            near_branch(old(self)@, seq![0xE8u8], label, final(self)@),
    {
        let opcode = byte_vec(0xE8);
        self.near_branch_to_label(opcode.as_slice(), label)
    }
}

} // verus!
