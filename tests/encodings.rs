use assembler::immediates::{Immediate16Bit, Immediate32Bit, Immediate64Bit, Immediate8Bit};
use assembler::memory::{MemoryOffset32Bit, MemoryOperand, Scale};
use assembler::registers::{
    ControlRegister, DebugRegister, MMRegister, Register32Bit, Register64Bit, Register8Bit, SegmentRegister,
    X87Register, XMMRegister, YMMRegister,
};
use assembler::stream::InstructionStream;

fn assemble(build: impl FnOnce(&mut InstructionStream)) -> Vec<u8> {
    let mut stream = InstructionStream::new(4096, 4);
    build(&mut stream);
    assert!(stream.can_finish());
    stream.finish()
}

#[test]
fn ret_is_c3() {
    assert_eq!(assemble(|s| s.ret()), vec![0xC3]);
}

#[test]
fn nop_is_90() {
    assert_eq!(assemble(|s| s.nop()), vec![0x90]);
}

#[test]
fn fwait_is_9b() {
    assert_eq!(assemble(|s| s.fwait()), vec![0x9B]);
}

#[test]
fn mov_rax_imm64() {
    let bytes = assemble(|s| s.mov_r64_imm64(Register64Bit::RAX, Immediate64Bit(0x1122334455667788)));
    assert_eq!(bytes, vec![0x48, 0xB8, 0x88, 0x77, 0x66, 0x55, 0x44, 0x33, 0x22, 0x11]);
}

#[test]
fn mov_r12_imm64_sets_rex_b() {
    let bytes = assemble(|s| s.mov_r64_imm64(Register64Bit::R12, Immediate64Bit(-1)));
    assert_eq!(bytes, vec![0x49, 0xBC, 0xFF, 0xFF, 0xFF, 0xFF, 0xFF, 0xFF, 0xFF, 0xFF]);
}

#[test]
fn add_eax_one_short_form() {
    let bytes = assemble(|s| s.add_r32_imm8(Register32Bit::EAX, Immediate8Bit(1)));
    assert_eq!(bytes, vec![0x83, 0xC0, 0x01]);
}

#[test]
fn add_rax_minus_one() {
    let bytes = assemble(|s| s.add_r64_imm8(Register64Bit::RAX, Immediate8Bit(-1)));
    assert_eq!(bytes, vec![0x48, 0x83, 0xC0, 0xFF]);
}

#[test]
fn sub_rsp_eight() {
    let bytes = assemble(|s| s.sub_r64_imm8(Register64Bit::RSP, Immediate8Bit(8)));
    assert_eq!(bytes, vec![0x48, 0x83, 0xEC, 0x08]);
}

#[test]
fn add_eax_imm32_accumulator_form() {
    let bytes = assemble(|s| s.add_eax_imm32(Immediate32Bit(0x12345678)));
    assert_eq!(bytes, vec![0x05, 0x78, 0x56, 0x34, 0x12]);
}

#[test]
fn add_r64_r64_extended() {
    let bytes = assemble(|s| s.add_r64_r64(Register64Bit::R10, Register64Bit::R11));
    assert_eq!(bytes, vec![0x4D, 0x01, 0xDA]);
}

#[test]
fn mov_rax_rdi_then_ret_identity_function() {
    let bytes = assemble(|s| {
        s.mov_r64_r64(Register64Bit::RAX, Register64Bit::RDI);
        s.ret();
    });
    assert_eq!(bytes, vec![0x48, 0x89, 0xF8, 0xC3]);
}

#[test]
fn mov_r8_rax_sets_rex_b() {
    let bytes = assemble(|s| s.mov_r64_r64(Register64Bit::R8, Register64Bit::RAX));
    assert_eq!(bytes, vec![0x49, 0x89, 0xC0]);
}

#[test]
fn mov_rax_r9_sets_rex_r() {
    let bytes = assemble(|s| s.mov_r64_r64(Register64Bit::RAX, Register64Bit::R9));
    assert_eq!(bytes, vec![0x4C, 0x89, 0xC8]);
}

#[test]
fn mov_eax_ecx_has_no_rex() {
    let bytes = assemble(|s| s.mov_r32_r32(Register32Bit::EAX, Register32Bit::ECX));
    assert_eq!(bytes, vec![0x89, 0xC8]);
    assert!(!bytes.contains(&0x40));
}

#[test]
fn mov_r8d_eax() {
    let bytes = assemble(|s| s.mov_r32_r32(Register32Bit::R8D, Register32Bit::EAX));
    assert_eq!(bytes, vec![0x41, 0x89, 0xC0]);
}

#[test]
fn mov_al_cl_has_no_rex() {
    let bytes = assemble(|s| s.mov_r8_r8(Register8Bit::AL, Register8Bit::CL));
    assert_eq!(bytes, vec![0x88, 0xC8]);
}

#[test]
fn mov_sil_al_forces_rex() {
    let bytes = assemble(|s| s.mov_r8_r8(Register8Bit::SIL, Register8Bit::AL));
    assert_eq!(bytes, vec![0x40, 0x88, 0xC6]);
}

#[test]
fn mov_al_dil_forces_rex() {
    let bytes = assemble(|s| s.mov_r8_r8(Register8Bit::AL, Register8Bit::DIL));
    assert_eq!(bytes, vec![0x40, 0x88, 0xF8]);
}

#[test]
fn every_spl_bpl_sil_dil_use_carries_rex() {
    let low = [Register8Bit::AL, Register8Bit::CL, Register8Bit::DL, Register8Bit::BL];
    let forcing = [Register8Bit::SPL, Register8Bit::BPL, Register8Bit::SIL, Register8Bit::DIL];
    for &a in forcing.iter() {
        for &b in low.iter() {
            for bytes in [assemble(|s| s.mov_r8_r8(a, b)), assemble(|s| s.mov_r8_r8(b, a))] {
                assert!((0x40..=0x4F).contains(&bytes[0]));
            }
        }
    }
}

#[test]
fn mov_r8b_spl() {
    let bytes = assemble(|s| s.mov_r8_r8(Register8Bit::R8B, Register8Bit::SPL));
    assert_eq!(bytes, vec![0x41, 0x88, 0xE0]);
}

#[test]
fn memory_rbp_takes_zero_disp8() {
    let bytes = assemble(|s| s.mov_r64_m64(Register64Bit::RAX, MemoryOperand::based(Register64Bit::RBP, 0)));
    assert_eq!(bytes, vec![0x48, 0x8B, 0x45, 0x00]);
}

#[test]
fn memory_r13_takes_zero_disp8() {
    let bytes = assemble(|s| s.mov_r64_m64(Register64Bit::RAX, MemoryOperand::based(Register64Bit::R13, 0)));
    assert_eq!(bytes, vec![0x49, 0x8B, 0x45, 0x00]);
}

#[test]
fn memory_rsp_takes_sib() {
    let bytes = assemble(|s| s.mov_r64_m64(Register64Bit::RAX, MemoryOperand::based(Register64Bit::RSP, 0)));
    assert_eq!(bytes, vec![0x48, 0x8B, 0x04, 0x24]);
}

#[test]
fn memory_r12_takes_sib() {
    let bytes = assemble(|s| s.mov_r64_m64(Register64Bit::RAX, MemoryOperand::based(Register64Bit::R12, 0)));
    assert_eq!(bytes, vec![0x49, 0x8B, 0x04, 0x24]);
}

#[test]
fn memory_rip_relative() {
    let bytes = assemble(|s| s.mov_r64_m64(Register64Bit::RAX, MemoryOperand::rip_relative(0x10)));
    assert_eq!(bytes, vec![0x48, 0x8B, 0x05, 0x10, 0x00, 0x00, 0x00]);
}

#[test]
fn memory_absolute_disp32() {
    let bytes = assemble(|s| s.mov_r64_m64(Register64Bit::RAX, MemoryOperand::absolute(0x1000)));
    assert_eq!(bytes, vec![0x48, 0x8B, 0x04, 0x25, 0x00, 0x10, 0x00, 0x00]);
}

#[test]
fn memory_base_disp8_and_disp32() {
    let near = assemble(|s| s.mov_r64_m64(Register64Bit::RAX, MemoryOperand::based(Register64Bit::RBX, 8)));
    assert_eq!(near, vec![0x48, 0x8B, 0x43, 0x08]);
    let back = assemble(|s| s.mov_r64_m64(Register64Bit::RAX, MemoryOperand::based(Register64Bit::RBX, -8)));
    assert_eq!(back, vec![0x48, 0x8B, 0x43, 0xF8]);
    let far = assemble(|s| s.mov_r64_m64(Register64Bit::RAX, MemoryOperand::based(Register64Bit::RBX, 0x100)));
    assert_eq!(far, vec![0x48, 0x8B, 0x83, 0x00, 0x01, 0x00, 0x00]);
}

#[test]
fn memory_base_index_scale() {
    let bytes = assemble(|s| {
        s.mov_r64_m64(
            Register64Bit::RAX,
            MemoryOperand::based_indexed(Register64Bit::RBX, Register64Bit::RCX, Scale::Four, 0x10),
        )
    });
    assert_eq!(bytes, vec![0x48, 0x8B, 0x44, 0x8B, 0x10]);
}

#[test]
fn memory_rbp_base_with_extended_index() {
    let bytes = assemble(|s| {
        s.mov_r64_m64(
            Register64Bit::RAX,
            MemoryOperand::based_indexed(Register64Bit::RBP, Register64Bit::R9, Scale::Eight, 0),
        )
    });
    assert_eq!(bytes, vec![0x4A, 0x8B, 0x44, 0xCD, 0x00]);
}

#[test]
fn memory_index_without_base() {
    let bytes = assemble(|s| {
        s.mov_r64_m64(Register64Bit::RAX, MemoryOperand::indexed(Register64Bit::RCX, Scale::Two, 0x20))
    });
    assert_eq!(bytes, vec![0x48, 0x8B, 0x04, 0x4D, 0x20, 0x00, 0x00, 0x00]);
}

#[test]
fn store_to_rsp_plus_eight() {
    let bytes = assemble(|s| s.mov_m64_r64(MemoryOperand::based(Register64Bit::RSP, 8), Register64Bit::RDI));
    assert_eq!(bytes, vec![0x48, 0x89, 0x7C, 0x24, 0x08]);
}

#[test]
fn segment_override_comes_first() {
    let bytes = assemble(|s| {
        s.mov_r64_m64(Register64Bit::RAX, MemoryOperand::absolute(0x28).with_segment(SegmentRegister::FS))
    });
    assert_eq!(bytes, vec![0x64, 0x48, 0x8B, 0x04, 0x25, 0x28, 0x00, 0x00, 0x00]);
}

#[test]
fn address_size_override_for_32_bit_base() {
    let bytes = assemble(|s| s.mov_m32_r32(MemoryOperand::based_32(Register32Bit::EAX, 0), Register32Bit::ECX));
    assert_eq!(bytes, vec![0x67, 0x89, 0x08]);
}

#[test]
fn lea_rip_relative_backwards() {
    let bytes = assemble(|s| s.lea_r64_m(Register64Bit::RAX, MemoryOperand::rip_relative(-7)));
    assert_eq!(bytes, vec![0x48, 0x8D, 0x05, 0xF9, 0xFF, 0xFF, 0xFF]);
}

#[test]
fn push_and_pop() {
    let bytes = assemble(|s| {
        s.push_r64(Register64Bit::RBP);
        s.push_r64(Register64Bit::R12);
        s.pop_r64(Register64Bit::RBX);
        s.pop_r64(Register64Bit::R15);
    });
    assert_eq!(bytes, vec![0x55, 0x41, 0x54, 0x5B, 0x41, 0x5F]);
}

#[test]
fn operand_size_override_for_16_bit() {
    let bytes = assemble(|s| s.mov_r16_imm16(Register32Bit::EAX, Immediate16Bit(0x1234)));
    assert_eq!(bytes, vec![0x66, 0xC7, 0xC0, 0x34, 0x12]);
}

#[test]
fn enter_emits_word_then_byte() {
    let bytes = assemble(|s| s.enter(Immediate16Bit(0x0102), Immediate8Bit(3)));
    assert_eq!(bytes, vec![0xC8, 0x02, 0x01, 0x03]);
}

#[test]
fn mov_rax_from_memory_offset() {
    let plain = assemble(|s| s.mov_rax_moffs64(MemoryOffset32Bit::OffsetForm32(Immediate64Bit(0x1122334455667788))));
    assert_eq!(plain, vec![0x48, 0xA1, 0x88, 0x77, 0x66, 0x55, 0x44, 0x33, 0x22, 0x11]);
    let with_segment = assemble(|s| {
        s.mov_rax_moffs64(MemoryOffset32Bit::SegmentOffsetForm32(SegmentRegister::GS, Immediate64Bit(0x10)))
    });
    assert_eq!(with_segment, vec![0x65, 0x48, 0xA1, 0x10, 0, 0, 0, 0, 0, 0, 0]);
}

#[test]
fn mmx_paddb() {
    let bytes = assemble(|s| s.paddb_mm_mm(MMRegister::MM0, MMRegister::MM1));
    assert_eq!(bytes, vec![0x0F, 0xFC, 0xC1]);
}

#[test]
fn mmx_register_from_x87_register() {
    let bytes = assemble(|s| s.paddb_mm_mm(MMRegister::from_x87(X87Register::ST2), MMRegister::MM3));
    assert_eq!(bytes, vec![0x0F, 0xFC, 0xD3]);
}

#[test]
fn x87_register_in_opcode() {
    let bytes = assemble(|s| {
        s.fadd_st0_sti(X87Register::ST3);
        s.fld_sti(X87Register::ST1);
    });
    assert_eq!(bytes, vec![0xD8, 0xC3, 0xD9, 0xC1]);
}

#[test]
fn vaddps_ymm_two_byte_vex() {
    let bytes = assemble(|s| s.vaddps_ymm_ymm_ymm(YMMRegister::YMM0, YMMRegister::YMM1, YMMRegister::YMM2));
    assert_eq!(bytes, vec![0xC5, 0xF4, 0x58, 0xC2]);
}

#[test]
fn vaddps_xmm_two_byte_vex() {
    let bytes = assemble(|s| s.vaddps_xmm_xmm_xmm(XMMRegister::XMM0, XMMRegister::XMM1, XMMRegister::XMM2));
    assert_eq!(bytes, vec![0xC5, 0xF0, 0x58, 0xC2]);
}

#[test]
fn vaddps_extended_rm_needs_three_byte_vex() {
    let bytes = assemble(|s| s.vaddps_ymm_ymm_ymm(YMMRegister::YMM0, YMMRegister::YMM1, YMMRegister::YMM8));
    assert_eq!(bytes, vec![0xC4, 0xC1, 0x74, 0x58, 0xC0]);
}

#[test]
fn vaddps_extended_reg_keeps_two_byte_vex() {
    let bytes = assemble(|s| s.vaddps_ymm_ymm_ymm(YMMRegister::YMM8, YMMRegister::YMM1, YMMRegister::YMM2));
    assert_eq!(bytes, vec![0xC5, 0x74, 0x58, 0xC2]);
}

#[test]
fn vaddps_with_memory_operand() {
    let bytes = assemble(|s| {
        s.vaddps_ymm_ymm_m256(YMMRegister::YMM0, YMMRegister::YMM1, MemoryOperand::based(Register64Bit::RAX, 0))
    });
    assert_eq!(bytes, vec![0xC5, 0xF4, 0x58, 0x00]);
}

#[test]
fn vzeroupper_bytes() {
    assert_eq!(assemble(|s| s.vzeroupper()), vec![0xC5, 0xF8, 0x77]);
}

#[test]
fn vpermq_w1_uses_three_byte_vex() {
    let bytes = assemble(|s| s.vpermq_ymm_ymm_imm8(YMMRegister::YMM0, YMMRegister::YMM1, Immediate8Bit(0x4E)));
    assert_eq!(bytes, vec![0xC4, 0xE3, 0xFD, 0x00, 0xC1, 0x4E]);
}

#[test]
fn vex_first_byte_follows_selection_rule() {
    for i in 0..16u8 {
        let regs = [
            YMMRegister::YMM0, YMMRegister::YMM1, YMMRegister::YMM2, YMMRegister::YMM3, YMMRegister::YMM4,
            YMMRegister::YMM5, YMMRegister::YMM6, YMMRegister::YMM7, YMMRegister::YMM8, YMMRegister::YMM9,
            YMMRegister::YMM10, YMMRegister::YMM11, YMMRegister::YMM12, YMMRegister::YMM13,
            YMMRegister::YMM14, YMMRegister::YMM15,
        ];
        let r = regs[i as usize];
        let bytes = assemble(|s| s.vaddps_ymm_ymm_ymm(YMMRegister::YMM0, YMMRegister::YMM0, r));
        assert_eq!(bytes[0], if i < 8 { 0xC5 } else { 0xC4 });
    }
}

#[test]
fn mov_to_and_from_control_registers() {
    assert_eq!(assemble(|s| s.mov_r64_cr(Register64Bit::RAX, ControlRegister::CR0)), vec![0x0F, 0x20, 0xC0]);
    assert_eq!(assemble(|s| s.mov_r64_cr(Register64Bit::RAX, ControlRegister::CR8)), vec![0x44, 0x0F, 0x20, 0xC0]);
    assert_eq!(assemble(|s| s.mov_cr_r64(ControlRegister::CR3, Register64Bit::RAX)), vec![0x0F, 0x22, 0xD8]);
    assert_eq!(assemble(|s| s.mov_cr_r64(ControlRegister::CR3, Register64Bit::R9)), vec![0x41, 0x0F, 0x22, 0xD9]);
}

#[test]
fn mov_to_and_from_debug_registers() {
    assert_eq!(assemble(|s| s.mov_r64_dr(Register64Bit::RAX, DebugRegister::DR7)), vec![0x0F, 0x21, 0xF8]);
    assert_eq!(assemble(|s| s.mov_dr_r64(DebugRegister::DR0, Register64Bit::RCX)), vec![0x0F, 0x23, 0xC1]);
}

#[test]
fn mov_to_and_from_segment_registers() {
    assert_eq!(assemble(|s| s.mov_sreg_r32(SegmentRegister::DS, Register32Bit::EAX)), vec![0x8E, 0xD8]);
    assert_eq!(assemble(|s| s.mov_r32_sreg(Register32Bit::EAX, SegmentRegister::FS)), vec![0x8C, 0xE0]);
}

#[test]
fn rep_prefix_precedes_rex() {
    assert_eq!(assemble(|s| s.rep_movsb()), vec![0xF3, 0xA4]);
    assert_eq!(assemble(|s| s.rep_stosq()), vec![0xF3, 0x48, 0xAB]);
}
