use vstd::prelude::*;
use crate::encoding::{
    RegisterOrMemory, address_size_prefix, extends_base, extends_index, forces_rex, mod_rm_sib_bytes,
    mod_rm_sib_vec, rex_byte, rex_prefix, segment_prefix, vex_fields_wf, vex_prefix,
    vex_prefix_vec,
};
use crate::immediates::{AsDisplacement, Immediate16Bit, Immediate8Bit};
use crate::emitter::{le_bytes_vec, lemma_le_bytes_len};
use crate::stream::InstructionStream;

verus! {

/// Prefix groups 2 and 4 that a memory operand asks for: segment override, then
/// address-size override.
pub open spec fn memory_prefixes(rm: RegisterOrMemory) -> Seq<u8> {
    segment_prefix(rm) + address_size_prefix(rm)
}

/// An instruction with a `ModR/M` operand, laid out as Intel prescribes:
/// segment override, address-size override, operand-size override, `REX`,
/// opcode, `ModR/M` with `SIB` and displacement, immediate.
///
/// `reg` is the number in the `reg` field (a register, or an opcode extension);
/// `reg_forces_rex` marks a `reg` register that is `SPL`, `BPL`, `SIL` or `DIL`.
pub open spec fn rm_instruction(
    operand_size_16: bool,
    w: bool,
    opcode: Seq<u8>,
    reg: u8,
    reg_forces_rex: bool,
    rm: RegisterOrMemory,
    immediate: Seq<u8>,
) -> Seq<u8> {
    memory_prefixes(rm) + (if operand_size_16 {
        seq![0x66u8]
    } else {
        seq![]
    }) + rex_prefix(w, reg > 7, extends_index(rm), extends_base(rm), reg_forces_rex || forces_rex(rm))
        + opcode + mod_rm_sib_bytes(reg, rm) + immediate
}

/// Everything before the opcode of an instruction with a `ModR/M` operand.
pub open spec fn legacy_prefixes(
    operand_size_16: bool,
    w: bool,
    reg: u8,
    reg_forces_rex: bool,
    rm: RegisterOrMemory,
) -> Seq<u8> {
    memory_prefixes(rm) + (if operand_size_16 {
        seq![0x66u8]
    } else {
        seq![]
    }) + rex_prefix(w, reg > 7, extends_index(rm), extends_base(rm), reg_forces_rex || forces_rex(rm))
}

/// An instruction whose register is added to the last opcode byte.
pub open spec fn register_in_opcode_instruction(
    operand_size_16: bool,
    w: bool,
    opcode: u8,
    reg: u8,
    reg_forces_rex: bool,
    immediate: Seq<u8>,
) -> Seq<u8> {
    (if operand_size_16 {
        seq![0x66u8]
    } else {
        seq![]
    }) + rex_prefix(w, false, false, reg > 7, reg_forces_rex) + seq![(opcode + reg % 8) as u8] + immediate
}

/// A `VEX`-encoded instruction with a `ModR/M` operand: memory prefixes, `VEX`,
/// one opcode byte, `ModR/M` with `SIB` and displacement.
pub open spec fn vex_instruction(
    mmmmm: u8,
    l: u8,
    pp: u8,
    w: bool,
    vvvv: u8,
    opcode: u8,
    reg: u8,
    rm: RegisterOrMemory,
) -> Seq<u8> {
    memory_prefixes(rm) + vex_prefix(mmmmm, l, pp, w, vvvv, reg > 7, extends_index(rm), extends_base(rm))
        + seq![opcode] + mod_rm_sib_bytes(reg, rm)
}

/// One byte, as a vector.
pub fn byte_vec(a: u8) -> (r: Vec<u8>)
    ensures
        r@ == seq![a],
{
    let mut out: Vec<u8> = Vec::new();
    out.push(a);
    assert(out@ =~= seq![a]);
    out
}

/// Two bytes, as a vector.
pub fn byte_pair_vec(a: u8, b: u8) -> (r: Vec<u8>)
    ensures
        r@ == seq![a, b],
{
    let mut out: Vec<u8> = Vec::new();
    out.push(a);
    out.push(b);
    assert(out@ =~= seq![a, b]);
    out
}

/// The bytes of an immediate or displacement, as a vector.
pub fn immediate_vec<D: AsDisplacement>(d: D) -> (r: Vec<u8>)
    ensures
        r@ == d.displacement_bytes(),
{
    let (bits, width) = d.displacement();
    le_bytes_vec(bits as u128, width)
}

impl InstructionStream {
    /// Emits an `FWAIT` prefix byte.
    pub fn prefix_fwait(&mut self, byte: u8)
        requires
            old(self).wf(),
            old(self)@.room() >= 1,
        ensures
            final(self).wf(),
            final(self)@ == old(self)@.emitted(seq![byte]),
    {
        self.emit_byte(byte)
    }

    /// Emits a group 1 prefix (`LOCK`, `REPNE`, `REP`).
    pub fn prefix_group1(&mut self, byte: u8)
        requires
            old(self).wf(),
            old(self)@.room() >= 1,
        ensures
            final(self).wf(),
            final(self)@ == old(self)@.emitted(seq![byte]),
    {
        self.emit_byte(byte)
    }

    /// Emits the segment override of a memory operand, if it has one.
    pub fn prefix_group2(&mut self, rm: RegisterOrMemory)
        requires
            old(self).wf(),
            old(self)@.room() >= segment_prefix(rm).len(),
        ensures
            final(self).wf(),
            final(self)@ == old(self)@.emitted(segment_prefix(rm)),
    {
        match rm {
            RegisterOrMemory::Memory(m) => match m.segment {
                Some(segment) => self.emit_byte(segment.override_prefix()),
                None => {
                    assert(old(self)@.code + seq![] =~= old(self)@.code);
                },
            },
            _ => {
                assert(old(self)@.code + seq![] =~= old(self)@.code);
            },
        }
    }

    /// Emits the operand-size override `0x66`.
    pub fn prefix_group3(&mut self)
        requires
            old(self).wf(),
            old(self)@.room() >= 1,
        ensures
            final(self).wf(),
            final(self)@ == old(self)@.emitted(seq![0x66u8]),
    {
        self.emit_byte(0x66)
    }

    /// Emits the address-size override `0x67` for a 32-bit addressed memory operand.
    pub fn prefix_group4(&mut self, rm: RegisterOrMemory)
        requires
            old(self).wf(),
            old(self)@.room() >= address_size_prefix(rm).len(),
        ensures
            final(self).wf(),
            final(self)@ == old(self)@.emitted(address_size_prefix(rm)),
    {
        let address_override_for_32_bit = match rm {
            RegisterOrMemory::Memory(m) => m.address_size_32,
            _ => false,
        };
        self.prefix_group4_if_address_override(address_override_for_32_bit)
    }

    /// Emits the address-size override `0x67` when asked to.
    pub fn prefix_group4_if_address_override(&mut self, address_override_for_32_bit: bool)
        requires
            old(self).wf(),
            old(self)@.room() >= (if address_override_for_32_bit { 1int } else { 0 }),
        ensures
            final(self).wf(),
            final(self)@ == old(self)@.emitted(
                if address_override_for_32_bit {
                    seq![0x67u8]
                } else {
                    seq![]
                },
            ),
    {
        if address_override_for_32_bit {
            self.emit_byte(0x67)
        } else {
            assert(old(self)@.code + seq![] =~= old(self)@.code);
        }
    }

    /// Emits the `REX` byte for a `reg` register and an `rm` operand, if one is needed.
    pub fn rex_3(&mut self, rm: RegisterOrMemory, reg: u8, reg_forces_rex: bool, w: bool)
        requires
            old(self).wf(),
            old(self)@.room() >= rex_prefix(
                w,
                reg > 7,
                extends_index(rm),
                extends_base(rm),
                reg_forces_rex || forces_rex(rm),
            ).len(),
        ensures
            final(self).wf(),
            final(self)@ == old(self)@.emitted(
                rex_prefix(w, reg > 7, extends_index(rm), extends_base(rm), reg_forces_rex || forces_rex(rm)),
            ),
    {
        let (x, b, forced) = match rm {
            RegisterOrMemory::Register { index, byte_register } => (false, index > 7, byte_register && index
                > 3),
            RegisterOrMemory::Memory(m) => match m.address {
                crate::memory::Address::Based { base, .. } => (false, base > 7, false),
                crate::memory::Address::BasedIndexed { base, index, .. } => (index > 7, base > 7, false),
                crate::memory::Address::Indexed { index, .. } => (index > 7, false, false),
                _ => (false, false, false),
            },
        };
        let value = rex_byte(w, reg > 7, x, b);
        if value == 0x40 && !(reg_forces_rex || forced) {
            assert(old(self)@.code + seq![] =~= old(self)@.code);
        } else {
            self.emit_byte(value);
        }
    }

    /// Emits the `REX` byte for an `rm` operand alone, if one is needed.
    pub fn rex_2(&mut self, rm: RegisterOrMemory, w: bool)
        requires
            old(self).wf(),
            old(self)@.room() >= rex_prefix(w, false, extends_index(rm), extends_base(rm), forces_rex(rm)).len(),
        ensures
            final(self).wf(),
            final(self)@ == old(self)@.emitted(
                rex_prefix(w, false, extends_index(rm), extends_base(rm), forces_rex(rm)),
            ),
    {
        self.rex_3(rm, 0, false, w)
    }

    /// Emits a ready-made `REX` byte; zero stands for no `REX` byte.
    pub fn rex_1(&mut self, byte: u8)
        requires
            old(self).wf(),
            old(self)@.room() >= 1,
        ensures
            final(self).wf(),
            final(self)@ == old(self)@.emitted(if byte == 0 { seq![] } else { seq![byte] }),
    {
        self.emit_byte_if_not_zero(byte)
    }

    pub fn opcode_1(&mut self, opcode: u8)
        requires
            old(self).wf(),
            old(self)@.room() >= 1,
        ensures
            final(self).wf(),
            final(self)@ == old(self)@.emitted(seq![opcode]),
    {
        self.emit_byte(opcode)
    }

    pub fn opcode_2(&mut self, opcode1: u8, opcode2: u8)
        requires
            old(self).wf(),
            old(self)@.room() >= 2,
        ensures
            final(self).wf(),
            final(self)@ == old(self)@.emitted(seq![opcode1, opcode2]),
    {
        self.opcode_1(opcode1);
        self.opcode_1(opcode2);
        assert(old(self)@.code + seq![opcode1] + seq![opcode2] =~= old(self)@.code + seq![opcode1, opcode2]);
    }

    pub fn opcode_3(&mut self, opcode1: u8, opcode2: u8, opcode3: u8)
        requires
            old(self).wf(),
            old(self)@.room() >= 3,
        ensures
            final(self).wf(),
            final(self)@ == old(self)@.emitted(seq![opcode1, opcode2, opcode3]),
    {
        self.opcode_1(opcode1);
        self.opcode_1(opcode2);
        self.opcode_1(opcode3);
        assert(old(self)@.code + seq![opcode1] + seq![opcode2] + seq![opcode3] =~= old(self)@.code + seq![
            opcode1,
            opcode2,
            opcode3,
        ]);
    }

    /// Emits `ModR/M` (and `SIB` and displacement) for `rm`, with `reg` in the `reg` field.
    pub fn mod_rm_sib(&mut self, rm: RegisterOrMemory, reg: u8)
        requires
            old(self).wf(),
            rm.wf(),
            old(self)@.room() >= mod_rm_sib_bytes(reg, rm).len(),
        ensures
            final(self).wf(),
            final(self)@ == old(self)@.emitted(mod_rm_sib_bytes(reg, rm)),
    {
        let bytes = mod_rm_sib_vec(reg, rm);
        self.emit_bytes(bytes.as_slice())
    }

    /// Emits a displacement or an immediate.
    pub fn displacement_immediate_1<D: AsDisplacement>(&mut self, displacement: D)
        requires
            old(self).wf(),
            old(self)@.room() >= displacement.displacement_bytes().len(),
        ensures
            final(self).wf(),
            final(self)@ == old(self)@.emitted(displacement.displacement_bytes()),
    {
        let (bits, width) = displacement.displacement();
        let bytes = le_bytes_vec(bits as u128, width);
        self.emit_bytes(bytes.as_slice())
    }

    /// Emits two immediates in the order Intel gives them (as for `ENTER`): the
    /// 16-bit one first, then the 8-bit one.
    pub fn displacement_immediate_2(&mut self, displacement1: Immediate8Bit, displacement2: Immediate16Bit)
        requires
            old(self).wf(),
            old(self)@.room() >= 3,
        ensures
            final(self).wf(),
            final(self)@ == old(self)@.emitted(
                displacement2.displacement_bytes() + displacement1.displacement_bytes(),
            ),
    {
        proof {
            lemma_le_bytes_len(crate::immediates::twos_complement(displacement1.0 as int, 1), 1);
            lemma_le_bytes_len(crate::immediates::twos_complement(displacement2.0 as int, 2), 2);
        }
        self.displacement_immediate_1(displacement2);
        self.displacement_immediate_1(displacement1);
        assert(old(self)@.code + displacement2.displacement_bytes() + displacement1.displacement_bytes()
            =~= old(self)@.code + (displacement2.displacement_bytes() + displacement1.displacement_bytes()));
    }

    /// Emits a `VEX` prefix for an instruction with a `ModR/M` operand `rm`,
    /// `reg` in the `reg` field and `vvvv` as extra source register.
    pub fn vex_7(
        &mut self,
        mmmmm: u8,
        l: u8,
        pp: u8,
        w: bool,
        vvvv: u8,
        rm: RegisterOrMemory,
        reg: u8,
    )
        requires
            old(self).wf(),
            old(self)@.room() >= vex_prefix(mmmmm, l, pp, w, vvvv, reg > 7, extends_index(rm), extends_base(rm)).len(),
            vex_fields_wf(mmmmm, l, pp, vvvv),
        ensures
            final(self).wf(),
            final(self)@ == old(self)@.emitted(
                vex_prefix(mmmmm, l, pp, w, vvvv, reg > 7, extends_index(rm), extends_base(rm)),
            ),
    {
        let (x, b) = match rm {
            RegisterOrMemory::Register { index, .. } => (false, index > 7),
            RegisterOrMemory::Memory(m) => match m.address {
                crate::memory::Address::Based { base, .. } => (false, base > 7),
                crate::memory::Address::BasedIndexed { base, index, .. } => (index > 7, base > 7),
                crate::memory::Address::Indexed { index, .. } => (index > 7, false),
                _ => (false, false),
            },
        };
        let bytes = vex_prefix_vec(mmmmm, l, pp, w, vvvv, reg > 7, x, b);
        self.emit_bytes(bytes.as_slice())
    }

    /// Emits a `VEX` prefix for an instruction without a `ModR/M` operand.
    pub fn vex_5(&mut self, mmmmm: u8, l: u8, pp: u8, w: bool, vvvv: u8)
        requires
            old(self).wf(),
            old(self)@.room() >= vex_prefix(mmmmm, l, pp, w, vvvv, false, false, false).len(),
            vex_fields_wf(mmmmm, l, pp, vvvv),
        ensures
            final(self).wf(),
            final(self)@ == old(self)@.emitted(vex_prefix(mmmmm, l, pp, w, vvvv, false, false, false)),
    {
        let bytes = vex_prefix_vec(mmmmm, l, pp, w, vvvv, false, false, false);
        self.emit_bytes(bytes.as_slice())
    }

    /// Emits the prefixes and `REX` byte of an instruction with a `ModR/M` operand.
    pub fn emit_legacy_prefixes(
        &mut self,
        operand_size_16: bool,
        w: bool,
        reg: u8,
        reg_forces_rex: bool,
        rm: RegisterOrMemory,
    )
        requires
            old(self).wf(),
            old(self)@.room() >= legacy_prefixes(operand_size_16, w, reg, reg_forces_rex, rm).len(),
        ensures
            final(self).wf(),
            final(self)@ == old(self)@.emitted(legacy_prefixes(operand_size_16, w, reg, reg_forces_rex, rm)),
    {
        let ghost s = old(self)@;
        self.prefix_group2(rm);
        self.prefix_group4(rm);
        if operand_size_16 {
            self.prefix_group3();
        } else {
            assert(self@.code + seq![] =~= self@.code);
        }
        self.rex_3(rm, reg, reg_forces_rex, w);
        assert(self@.code =~= s.code + legacy_prefixes(operand_size_16, w, reg, reg_forces_rex, rm));
    }

    /// Emits an instruction with a `ModR/M` operand (see `rm_instruction`).
    pub fn emit_rm_instruction(
        &mut self,
        operand_size_16: bool,
        w: bool,
        opcode: &[u8],
        reg: u8,
        reg_forces_rex: bool,
        rm: RegisterOrMemory,
        immediate: &[u8],
    )
        requires
            old(self).wf(),
            rm.wf(),
            old(self)@.room() >= rm_instruction(
                operand_size_16,
                w,
                opcode@,
                reg,
                reg_forces_rex,
                rm,
                immediate@,
            ).len(),
        ensures
            final(self).wf(),
            final(self)@ == old(self)@.emitted(
                rm_instruction(operand_size_16, w, opcode@, reg, reg_forces_rex, rm, immediate@),
            ),
    {
        let ghost s = old(self)@;
        let ghost prefixes = legacy_prefixes(operand_size_16, w, reg, reg_forces_rex, rm);
        let ghost p6 = mod_rm_sib_bytes(reg, rm);
        assert(rm_instruction(operand_size_16, w, opcode@, reg, reg_forces_rex, rm, immediate@)
            =~= prefixes + opcode@ + p6 + immediate@);
        self.emit_legacy_prefixes(operand_size_16, w, reg, reg_forces_rex, rm);
        self.emit_bytes(opcode);
        self.mod_rm_sib(rm, reg);
        self.emit_bytes(immediate);
        assert(self@.code =~= s.code + (prefixes + opcode@ + p6 + immediate@));
    }

    /// Emits an instruction whose register is added to its last opcode byte.
    pub fn emit_register_in_opcode_instruction(
        &mut self,
        operand_size_16: bool,
        w: bool,
        opcode: u8,
        reg: u8,
        reg_forces_rex: bool,
        immediate: &[u8],
    )
        requires
            old(self).wf(),
            reg < 16,
            opcode % 8 == 0,
            old(self)@.room() >= register_in_opcode_instruction(
                operand_size_16,
                w,
                opcode,
                reg,
                reg_forces_rex,
                immediate@,
            ).len(),
        ensures
            final(self).wf(),
            final(self)@ == old(self)@.emitted(
                register_in_opcode_instruction(operand_size_16, w, opcode, reg, reg_forces_rex, immediate@),
            ),
    {
        let ghost s = old(self)@;
        if operand_size_16 {
            self.prefix_group3();
        } else {
            assert(self@.code + seq![] =~= self@.code);
        }
        let value = rex_byte(w, false, false, reg > 7);
        if value == 0x40 && !reg_forces_rex {
            assert(self@.code + seq![] =~= self@.code);
        } else {
            self.emit_byte(value);
        }
        self.opcode_1(opcode + reg % 8);
        self.emit_bytes(immediate);
        assert(self@.code =~= s.code + register_in_opcode_instruction(
            operand_size_16,
            w,
            opcode,
            reg,
            reg_forces_rex,
            immediate@,
        ));
    }

    /// Emits a `VEX`-encoded instruction with a `ModR/M` operand (see `vex_instruction`).
    pub fn emit_vex_instruction(
        &mut self,
        mmmmm: u8,
        l: u8,
        pp: u8,
        w: bool,
        vvvv: u8,
        opcode: u8,
        reg: u8,
        rm: RegisterOrMemory,
    )
        requires
            old(self).wf(),
            rm.wf(),
            vex_fields_wf(mmmmm, l, pp, vvvv),
            old(self)@.room() >= vex_instruction(mmmmm, l, pp, w, vvvv, opcode, reg, rm).len(),
        ensures
            final(self).wf(),
            final(self)@ == old(self)@.emitted(vex_instruction(mmmmm, l, pp, w, vvvv, opcode, reg, rm)),
    {
        let ghost s = old(self)@;
        self.prefix_group2(rm);
        self.prefix_group4(rm);
        self.vex_7(mmmmm, l, pp, w, vvvv, rm, reg);
        self.opcode_1(opcode);
        self.mod_rm_sib(rm, reg);
        assert(self@.code =~= s.code + vex_instruction(mmmmm, l, pp, w, vvvv, opcode, reg, rm));
    }
}

} // verus!
