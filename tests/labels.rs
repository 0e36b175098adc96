use assembler::immediates::{Immediate, Immediate16Bit, Immediate32Bit, Immediate64Bit, Immediate8Bit};
use assembler::memory::MemoryOffset32Bit;
use assembler::registers::{Register, Register64Bit, Register8Bit, SegmentRegister};
use assembler::stream::{InstructionStream, ShortOverflow};

#[test]
fn short_jump_forward_over_nop() {
    let mut s = InstructionStream::new(64, 1);
    let label = s.create_label();
    assert_eq!(s.jmp_rel8_label(label), Ok(()));
    s.nop();
    s.attach_label(label);
    assert_eq!(s.label_location(label), Some(3));
    assert!(s.can_finish());
    assert_eq!(s.finish(), vec![0xEB, 0x01, 0x90]);
}

#[test]
fn short_jump_backward_written_at_once() {
    let mut s = InstructionStream::new(64, 1);
    let label = s.create_and_attach_label();
    s.nop();
    assert_eq!(s.jmp_rel8_label(label), Ok(()));
    assert_eq!(s.finish(), vec![0x90, 0xEB, 0xFD]);
}

#[test]
fn near_jump_forward_and_backward() {
    let mut s = InstructionStream::new(64, 2);
    let top = s.create_and_attach_label();
    let bottom = s.create_label();
    s.jmp_rel32_label(bottom);
    s.nop();
    s.attach_label(bottom);
    s.jmp_rel32_label(top);
    assert_eq!(
        s.finish(),
        vec![0xE9, 0x01, 0x00, 0x00, 0x00, 0x90, 0xE9, 0xF5, 0xFF, 0xFF, 0xFF]
    );
}

#[test]
fn conditional_and_call_displacements() {
    let mut s = InstructionStream::new(64, 2);
    let target = s.create_label();
    s.je_rel32_label(target);
    s.attach_label(target);
    s.call_rel32_label(target);
    assert_eq!(s.jne_rel8_label(target), Ok(()));
    assert_eq!(s.je_rel8_label(target), Ok(()));
    assert_eq!(
        s.finish(),
        vec![0x0F, 0x84, 0x00, 0x00, 0x00, 0x00, 0xE8, 0xFB, 0xFF, 0xFF, 0xFF, 0x75, 0xF9, 0x74, 0xF7]
    );
}

#[test]
fn label_round_trip_each_order_and_width() {
    // Attached after the branch (patched by finish) and before it (written at once).
    let mut s = InstructionStream::new(256, 4);
    let later8 = s.create_label();
    let later32 = s.create_label();
    let site8 = s.instruction_pointer() + 1;
    assert_eq!(s.jmp_rel8_label(later8), Ok(()));
    let site32 = s.instruction_pointer() + 1;
    s.jmp_rel32_label(later32);
    for _ in 0..10 {
        s.nop();
    }
    s.attach_label(later8);
    let target8 = s.instruction_pointer();
    s.nop();
    s.attach_label(later32);
    let target32 = s.instruction_pointer();
    let earlier = s.create_and_attach_label();
    let back8 = s.instruction_pointer() + 1;
    assert_eq!(s.jmp_rel8_label(earlier), Ok(()));
    let back32 = s.instruction_pointer() + 1;
    s.jmp_rel32_label(earlier);
    let code = s.finish();
    assert_eq!(code[site8] as i8 as i64, target8 as i64 - (site8 as i64 + 1));
    let d32 = i32::from_le_bytes([code[site32], code[site32 + 1], code[site32 + 2], code[site32 + 3]]);
    assert_eq!(d32 as i64, target32 as i64 - (site32 as i64 + 4));
    assert_eq!(code[back8] as i8 as i64, target32 as i64 - (back8 as i64 + 1));
    let b32 = i32::from_le_bytes([code[back32], code[back32 + 1], code[back32 + 2], code[back32 + 3]]);
    assert_eq!(b32 as i64, target32 as i64 - (back32 as i64 + 4));
}

#[test]
fn short_jump_too_far_back_rolls_back() {
    let mut s = InstructionStream::new(512, 1);
    let label = s.create_and_attach_label();
    for _ in 0..200 {
        s.nop();
    }
    let before = s.instruction_pointer();
    assert_eq!(s.jmp_rel8_label(label), Err(ShortOverflow));
    assert_eq!(s.instruction_pointer(), before);
    s.jmp_rel32_label(label);
    let code = s.finish();
    assert_eq!(code.len(), 205);
    assert_eq!(&code[200..], &[0xE9, 0x33, 0xFF, 0xFF, 0xFF]);
}

#[test]
fn short_jump_just_in_range_back() {
    let mut s = InstructionStream::new(512, 1);
    let label = s.create_and_attach_label();
    for _ in 0..126 {
        s.nop();
    }
    assert_eq!(s.jmp_rel8_label(label), Ok(()));
    let code = s.finish();
    assert_eq!(&code[126..], &[0xEB, 0x80]);
}

#[test]
fn unresolved_label_blocks_finish() {
    let mut s = InstructionStream::new(64, 1);
    let label = s.create_label();
    s.jmp_rel32_label(label);
    assert!(!s.can_finish());
    let mut t = InstructionStream::new(64, 1);
    let short = t.create_label();
    assert_eq!(t.jmp_rel8_label(short), Ok(()));
    assert!(!t.can_finish());
}

#[test]
fn pending_short_jump_too_far_blocks_finish() {
    let mut s = InstructionStream::new(512, 1);
    let label = s.create_label();
    assert_eq!(s.jmp_rel8_label(label), Ok(()));
    for _ in 0..200 {
        s.nop();
    }
    s.attach_label(label);
    assert!(!s.can_finish());
}

#[test]
fn alignment_pads_with_nops_and_is_idempotent() {
    let mut s = InstructionStream::new(256, 0);
    s.ret();
    s.ret();
    s.ret();
    s.emit_alignment(16);
    assert_eq!(s.instruction_pointer(), 16);
    s.emit_alignment(16);
    assert_eq!(s.instruction_pointer(), 16);
    s.emit_alignment(128);
    assert_eq!(s.instruction_pointer(), 128);
    s.emit_alignment(128);
    assert_eq!(s.instruction_pointer(), 128);
    let code = s.finish();
    assert_eq!(&code[..3], &[0xC3, 0xC3, 0xC3]);
    assert!(code[3..].iter().all(|&b| b == 0x90));
}

#[test]
fn alignment_on_aligned_cursor_emits_nothing() {
    let mut s = InstructionStream::new(64, 0);
    s.emit_alignment(8);
    assert_eq!(s.instruction_pointer(), 0);
    s.emit_alignment(1);
    assert_eq!(s.finish(), Vec::<u8>::new());
}

#[test]
fn raw_data_is_little_endian() {
    let mut s = InstructionStream::new(64, 0);
    s.emit_byte(0xAB);
    s.emit_word(0x1234);
    s.emit_double_word(0x89ABCDEF);
    s.emit_quad_word(0x0102030405060708);
    s.emit_double_quad_word(0x00112233445566778899AABBCCDDEEFF);
    s.emit_bytes(&[1, 2, 3]);
    let code = s.finish();
    let mut expected = vec![0xAB, 0x34, 0x12, 0xEF, 0xCD, 0xAB, 0x89, 8, 7, 6, 5, 4, 3, 2, 1];
    expected.extend_from_slice(&[
        0xFF, 0xEE, 0xDD, 0xCC, 0xBB, 0xAA, 0x99, 0x88, 0x77, 0x66, 0x55, 0x44, 0x33, 0x22, 0x11, 0x00,
    ]);
    expected.extend_from_slice(&[1, 2, 3]);
    assert_eq!(code, expected);
}

#[test]
fn labels_are_unique_and_capacity_kept() {
    let mut s = InstructionStream::new(100, 2);
    let a = s.create_label();
    let b = s.create_label();
    assert_ne!(a, b);
    assert_eq!(s.label_location(a), None);
    assert_eq!(s.capacity(), 100);
}

#[test]
fn immediate_limits() {
    assert_eq!(Immediate8Bit::minimum().value(), -128);
    assert_eq!(Immediate8Bit::maximum().value(), 127);
    assert_eq!(Immediate16Bit::minimum().value(), -32768);
    assert_eq!(Immediate32Bit::maximum().value(), i32::MAX as i64);
    assert_eq!(Immediate64Bit::minimum().value(), i64::MIN);
    assert_eq!(Immediate64Bit::one().value(), 1);
    assert_eq!(Immediate16Bit::zero().value(), 0);
}

#[test]
fn memory_offset_parts() {
    let plain = MemoryOffset32Bit::default();
    assert_eq!(plain.get_offset(), Immediate64Bit(0));
    assert_eq!(plain.get_segment_register(), None);
    let seg = MemoryOffset32Bit::from_parts(Some(SegmentRegister::FS), Immediate64Bit(5));
    assert_eq!(seg, MemoryOffset32Bit::SegmentOffsetForm32(SegmentRegister::FS, Immediate64Bit(5)));
    assert_eq!(seg.into_parts(), (Some(SegmentRegister::FS), Immediate64Bit(5)));
    assert_eq!(MemoryOffset32Bit::from(Immediate64Bit(9)), MemoryOffset32Bit::OffsetForm32(Immediate64Bit(9)));
}

#[test]
fn register_rex_requirements() {
    assert!(Register8Bit::SPL.requires_rex_byte());
    assert!(!Register8Bit::BL.requires_rex_byte());
    assert!(!Register64Bit::RSP.requires_rex_byte());
    assert!(Register64Bit::R8.requires_rex_bit());
    assert!(!Register64Bit::RDI.requires_rex_bit());
    assert_eq!(Register64Bit::R15.index(), 15);
}

#[test]
fn short_displacement_rolls_back_to_its_own_cursor() {
    let mut s = InstructionStream::new(512, 1);
    let label = s.create_and_attach_label();
    s.nop();
    s.emit_alignment(256);
    assert_eq!(s.instruction_pointer(), 256);
    assert_eq!(s.displacement_label_8bit(label), Err(ShortOverflow));
    assert_eq!(s.instruction_pointer(), 256);
    let code = s.finish();
    assert_eq!(code.len(), 256);
    assert!(code.iter().all(|&b| b == 0x90));
}

#[test]
fn short_displacement_after_late_label() {
    let mut s = InstructionStream::new(64, 2);
    s.nop();
    let label = s.create_and_attach_label();
    s.nop();
    assert_eq!(s.displacement_label_8bit(label), Ok(()));
    let pending = s.create_label();
    assert_eq!(s.displacement_label_8bit(pending), Ok(()));
    s.attach_label(pending);
    assert_eq!(s.finish(), vec![0x90, 0x90, 0xFE, 0x00]);
}

#[test]
fn memory_offset_conversions() {
    assert_eq!(MemoryOffset32Bit::from(-1i8), MemoryOffset32Bit::OffsetForm32(Immediate64Bit(-1)));
    assert_eq!(MemoryOffset32Bit::from(200u8), MemoryOffset32Bit::OffsetForm32(Immediate64Bit(200)));
    assert_eq!(MemoryOffset32Bit::from(-2i16), MemoryOffset32Bit::OffsetForm32(Immediate64Bit(-2)));
    assert_eq!(MemoryOffset32Bit::from(65535u16), MemoryOffset32Bit::OffsetForm32(Immediate64Bit(65535)));
    assert_eq!(MemoryOffset32Bit::from(-3i32), MemoryOffset32Bit::OffsetForm32(Immediate64Bit(-3)));
    assert_eq!(MemoryOffset32Bit::from(u32::MAX), MemoryOffset32Bit::OffsetForm32(Immediate64Bit(u32::MAX as i64)));
    assert_eq!(MemoryOffset32Bit::from(i64::MIN), MemoryOffset32Bit::OffsetForm32(Immediate64Bit(i64::MIN)));
    assert_eq!(MemoryOffset32Bit::from(u64::MAX), MemoryOffset32Bit::OffsetForm32(Immediate64Bit(-1)));
    let with_segment = MemoryOffset32Bit::from((Some(SegmentRegister::GS), Immediate64Bit(7)));
    assert_eq!(with_segment, MemoryOffset32Bit::SegmentOffsetForm32(SegmentRegister::GS, Immediate64Bit(7)));
    let offset: Immediate64Bit = with_segment.into();
    assert_eq!(offset, Immediate64Bit(7));
    let segment: Option<SegmentRegister> = with_segment.into();
    assert_eq!(segment, Some(SegmentRegister::GS));
    let parts: (Option<SegmentRegister>, Immediate64Bit) = with_segment.into();
    assert_eq!(parts, (Some(SegmentRegister::GS), Immediate64Bit(7)));
    let negative = MemoryOffset32Bit::from(-1i64);
    let as_signed: i64 = negative.into();
    let as_unsigned: u64 = negative.into();
    assert_eq!(as_signed, -1);
    assert_eq!(as_unsigned, u64::MAX);
}
