use vstd::prelude::*;
use crate::emitter::{le_bytes, lemma_le_bytes_len, splice};
use crate::encoder::{memory_prefixes, rm_instruction, vex_instruction};
use crate::encoding::{
    RegisterOrMemory, disp32, disp8, extends_base, extends_index, fits_i8, forces_rex, mod_rm,
    mod_rm_sib_bytes, mod_rm_sib_memory, rex_prefix, rex_value, vex_fields_wf, vex_prefix,
};
use crate::immediates::{AsDisplacement, Immediate16Bit, Immediate32Bit, Immediate64Bit, Immediate8Bit};
use crate::immediates::twos_complement;
use crate::memory::Address;
use crate::mnemonics::{direct, short_branch};
use crate::stream::{
    Label, ShortJmpResult, ShortOverflow, StreamView, alignment_padding, patch_all_32, patch_all_8,
};

verus! {

/// Without `W`, without extension bits and without `SPL`, `BPL`, `SIL` or `DIL`,
/// an instruction with a `ModR/M` operand carries no `REX` byte at all.
pub proof fn lemma_rex_suppressed(
    operand_size_16: bool,
    opcode: Seq<u8>,
    reg: u8,
    rm: RegisterOrMemory,
    immediate: Seq<u8>,
)
    requires
        reg <= 7,
        !extends_index(rm),
        !extends_base(rm),
        !forces_rex(rm),
    ensures
        rex_prefix(false, false, false, false, false) == Seq::<u8>::empty(),
        rm_instruction(operand_size_16, false, opcode, reg, false, rm, immediate) == memory_prefixes(rm) + (
        if operand_size_16 {
            seq![0x66u8]
        } else {
            seq![]
        }) + opcode + mod_rm_sib_bytes(reg, rm) + immediate,
{
    let p66: Seq<u8> = if operand_size_16 {
        seq![0x66u8]
    } else {
        seq![]
    };
    assert(rex_value(false, false, false, false) == 0x40);
    assert(memory_prefixes(rm) + p66 + Seq::<u8>::empty() =~= memory_prefixes(rm) + p66);
}

/// An instruction naming `SPL`, `BPL`, `SIL` or `DIL` carries a `REX` byte
/// (between `0x40` and `0x4F`) right before its opcode.
pub proof fn lemma_rex_forced(
    operand_size_16: bool,
    w: bool,
    opcode: Seq<u8>,
    reg: u8,
    reg_forces_rex: bool,
    rm: RegisterOrMemory,
    immediate: Seq<u8>,
)
    requires
        reg_forces_rex || forces_rex(rm),
    ensures
        ({
            let rex = rex_value(w, reg > 7, extends_index(rm), extends_base(rm));
            &&& 0x40 <= rex <= 0x4F
            &&& rm_instruction(operand_size_16, w, opcode, reg, reg_forces_rex, rm, immediate) == memory_prefixes(
                rm,
            ) + (if operand_size_16 {
                seq![0x66u8]
            } else {
                seq![]
            }) + seq![rex] + opcode + mod_rm_sib_bytes(reg, rm) + immediate
        }),
{
}

/// The two-byte `VEX` form (`C5`) is chosen exactly when `mmmmm` is 1, `W` is
/// clear and neither `X` nor `B` is needed; otherwise the three-byte form (`C4`).
/// With a register operand nothing comes before the prefix.
pub proof fn lemma_vex_form_selection(
    mmmmm: u8,
    l: u8,
    pp: u8,
    w: bool,
    vvvv: u8,
    opcode: u8,
    reg: u8,
    rm_register: u8,
)
    ensures
        ({
            let x = extends_index(direct(rm_register));
            let b = extends_base(direct(rm_register));
            let bytes = vex_instruction(mmmmm, l, pp, w, vvvv, opcode, reg, direct(rm_register));
            &&& bytes[0] == (if mmmmm == 1 && !w && !x && !b {
                0xC5u8
            } else {
                0xC4u8
            })
            &&& bytes.len() == (if mmmmm == 1 && !w && !x && !b {
                4int
            } else {
                5int
            })
        }),
{
    let rm = direct(rm_register);
    assert(memory_prefixes(rm) =~= Seq::<u8>::empty());
    let v = vex_prefix(mmmmm, l, pp, w, vvvv, reg > 7, extends_index(rm), extends_base(rm));
    assert(vex_instruction(mmmmm, l, pp, w, vvvv, opcode, reg, rm) =~= v + seq![opcode] + mod_rm_sib_bytes(
        reg,
        rm,
    ));
}

/// The memory forms that Intel treats apart: `[RBP]` and `[R13]` need a zero
/// one-byte displacement; `[RSP]` and `[R12]` need a `SIB` byte with no index;
/// `[RIP + d]` is `mod = 00, rm = 101`; an absolute `[d]` goes through a `SIB`
/// byte with neither base nor index.
pub proof fn lemma_mod_rm_edge_cases(reg: u8, d: i32)
    ensures
        mod_rm_sib_memory(reg, Address::Based { base: 5, displacement: 0 }) == seq![mod_rm(1, reg, 5), 0u8],
        mod_rm_sib_memory(reg, Address::Based { base: 13, displacement: 0 }) == seq![mod_rm(1, reg, 5), 0u8],
        mod_rm_sib_memory(reg, Address::Based { base: 4, displacement: 0 }) == seq![mod_rm(0, reg, 4), 0x24u8],
        mod_rm_sib_memory(reg, Address::Based { base: 12, displacement: 0 }) == seq![mod_rm(0, reg, 4), 0x24u8],
        mod_rm_sib_memory(reg, Address::RipRelative { displacement: d }) == seq![mod_rm(0, reg, 5)] + disp32(
            d as int,
        ),
        mod_rm_sib_memory(reg, Address::Absolute { displacement: d }) == seq![mod_rm(0, reg, 4), 0x25u8]
            + disp32(d as int),
{
    assert(disp8(0) =~= seq![0u8]) by {
        assert(le_bytes(0, 0) =~= Seq::<u8>::empty());
        assert(le_bytes(0, 1) =~= seq![0u8] + le_bytes(0, 0));
    }
    assert(seq![mod_rm(1, reg, 5)] + seq![0u8] =~= seq![mod_rm(1, reg, 5), 0u8]);
    assert(seq![mod_rm(0, reg, 4), 0x24u8] + Seq::<u8>::empty() =~= seq![mod_rm(0, reg, 4), 0x24u8]);
}

proof fn lemma_splice_index(code: Seq<u8>, at: int, bytes: Seq<u8>)
    requires
        0 <= at,
        at + bytes.len() <= code.len(),
    ensures
        splice(code, at, bytes).len() == code.len(),
        forall|i: int|
            0 <= i < code.len() ==> #[trigger] splice(code, at, bytes)[i] == if at <= i < at + bytes.len() {
                bytes[i - at]
            } else {
                code[i]
            },
{
}

/// One-byte patches in a queue whose sites increase: each site ends up holding
/// its displacement, and every other byte is kept.
proof fn lemma_patch_all_8(code: Seq<u8>, labels: Seq<Option<usize>>, p8: Seq<(usize, usize)>)
    requires
        forall|k: int| 0 <= k < p8.len() ==> (#[trigger] p8[k]).1 + 1 <= code.len(),
        forall|i: int, j: int| 0 <= i < j < p8.len() ==> p8[i].1 + 1 <= p8[j].1,
    ensures
        patch_all_8(code, labels, p8).len() == code.len(),
        forall|k: int|
            0 <= k < p8.len() ==> (#[trigger] patch_all_8(code, labels, p8)[p8[k].1 as int]) == disp8(
                labels[p8[k].0 as int].unwrap() - (p8[k].1 + 1),
            )[0],
        forall|pos: int|
            0 <= pos < code.len() && (forall|k: int| 0 <= k < p8.len() ==> (#[trigger] p8[k]).1 != pos)
                ==> #[trigger] patch_all_8(code, labels, p8)[pos] == code[pos],
    decreases p8.len(),
{
    if p8.len() > 0 {
        let q = p8.drop_last();
        assert forall|k: int| 0 <= k < q.len() implies (#[trigger] q[k]).1 + 1 <= code.len() by {
            assert(q[k] == p8[k]);
        }
        lemma_patch_all_8(code, labels, q);
        let prev = patch_all_8(code, labels, q);
        let (l, s) = p8.last();
        let d = disp8(labels[l as int].unwrap() - (s + 1));
        lemma_le_bytes_len(twos_complement(labels[l as int].unwrap() - (s + 1), 1), 1);
        lemma_splice_index(prev, s as int, d);
        let r = patch_all_8(code, labels, p8);
        assert(r == splice(prev, s as int, d));
        assert forall|k: int| 0 <= k < p8.len() implies (#[trigger] r[p8[k].1 as int]) == disp8(
            labels[p8[k].0 as int].unwrap() - (p8[k].1 + 1),
        )[0] by {
            if k < p8.len() - 1 {
                assert(q[k] == p8[k]);
            }
        }
        assert forall|pos: int|
            0 <= pos < code.len() && (forall|k: int| 0 <= k < p8.len() ==> (#[trigger] p8[k]).1 != pos)
                implies #[trigger] r[pos] == code[pos] by {
            assert(p8[p8.len() - 1].1 != pos);
            assert forall|k: int| 0 <= k < q.len() implies (#[trigger] q[k]).1 != pos by {
                assert(q[k] == p8[k]);
            }
        }
    }
}

/// Four-byte patches in a queue whose sites increase by at least four: each site
/// ends up holding its displacement, and every other byte is kept.
proof fn lemma_patch_all_32(code: Seq<u8>, labels: Seq<Option<usize>>, p32: Seq<(usize, usize)>)
    requires
        forall|k: int| 0 <= k < p32.len() ==> (#[trigger] p32[k]).1 + 4 <= code.len(),
        forall|i: int, j: int| 0 <= i < j < p32.len() ==> p32[i].1 + 4 <= p32[j].1,
    ensures
        patch_all_32(code, labels, p32).len() == code.len(),
        forall|k: int, j: int|
            0 <= k < p32.len() && 0 <= j < 4 ==> (#[trigger] patch_all_32(code, labels, p32)[p32[k].1 + j])
                == disp32(labels[p32[k].0 as int].unwrap() - (p32[k].1 + 4))[j],
        forall|pos: int|
            0 <= pos < code.len() && (forall|k: int|
                0 <= k < p32.len() ==> !((#[trigger] p32[k]).1 <= pos < p32[k].1 + 4)) ==> #[trigger] patch_all_32(
                code,
                labels,
                p32,
            )[pos] == code[pos],
    decreases p32.len(),
{
    if p32.len() > 0 {
        let q = p32.drop_last();
        assert forall|k: int| 0 <= k < q.len() implies (#[trigger] q[k]).1 + 4 <= code.len() by {
            assert(q[k] == p32[k]);
        }
        lemma_patch_all_32(code, labels, q);
        let prev = patch_all_32(code, labels, q);
        let (l, s) = p32.last();
        let d = disp32(labels[l as int].unwrap() - (s + 4));
        lemma_le_bytes_len(twos_complement(labels[l as int].unwrap() - (s + 4), 4), 4);
        lemma_splice_index(prev, s as int, d);
        let r = patch_all_32(code, labels, p32);
        assert(r == splice(prev, s as int, d));
        assert forall|k: int, j: int| 0 <= k < p32.len() && 0 <= j < 4 implies (#[trigger] r[p32[k].1 + j])
            == disp32(labels[p32[k].0 as int].unwrap() - (p32[k].1 + 4))[j] by {
            if k < p32.len() - 1 {
                assert(q[k] == p32[k]);
                assert(prev[q[k].1 + j] == disp32(labels[q[k].0 as int].unwrap() - (q[k].1 + 4))[j]);
            }
        }
        assert forall|pos: int|
            0 <= pos < code.len() && (forall|k: int|
                0 <= k < p32.len() ==> !((#[trigger] p32[k]).1 <= pos < p32[k].1 + 4)) implies #[trigger] r[pos]
            == code[pos] by {
            assert(!(p32[p32.len() - 1].1 <= pos < p32[p32.len() - 1].1 + 4));
            assert forall|k: int| 0 <= k < q.len() implies !((#[trigger] q[k]).1 <= pos < q[k].1 + 4) by {
                assert(q[k] == p32[k]);
            }
        }
    }
}

/// Label round trip: once a well-formed stream is resolved, each pending
/// one-byte site holds the signed displacement `target - (site + 1)` and each
/// pending four-byte site holds `target - (site + 4)`; every other byte, among
/// them each displacement that was written when its label was already attached,
/// stays as it was written.
pub proof fn lemma_labels_resolved(s: StreamView)
    requires
        s.wf(),
    ensures
        s.resolved().len() == s.code.len(),
        forall|k: int|
            0 <= k < s.pending8.len() ==> s.resolved().subrange(
                s.pending8[k].1 as int,
                s.pending8[k].1 + 1,
            ) == disp8(s.labels[s.pending8[k].0 as int].unwrap() - (s.pending8[k].1 + 1)),
        forall|k: int|
            0 <= k < s.pending32.len() ==> s.resolved().subrange(
                s.pending32[k].1 as int,
                s.pending32[k].1 + 4,
            ) == disp32(s.labels[s.pending32[k].0 as int].unwrap() - (s.pending32[k].1 + 4)),
        forall|pos: int|
            0 <= pos < s.code.len() && (forall|k: int| 0 <= k < s.pending8.len() ==> (#[trigger] s.pending8[k]).1 != pos)
                && (forall|k: int|
                0 <= k < s.pending32.len() ==> !((#[trigger] s.pending32[k]).1 <= pos < s.pending32[k].1 + 4))
                ==> #[trigger] s.resolved()[pos] == s.code[pos],
{
    let p8 = s.pending8;
    let p32 = s.pending32;
    assert forall|k: int| 0 <= k < p8.len() implies (#[trigger] p8[k]).1 + 1 <= s.code.len() by {
        assert(s.pending8[k].1 + 1 <= s.code.len());
    }
    lemma_patch_all_8(s.code, s.labels, p8);
    let after8 = patch_all_8(s.code, s.labels, p8);
    assert forall|k: int| 0 <= k < p32.len() implies (#[trigger] p32[k]).1 + 4 <= after8.len() by {
        assert(s.pending32[k].1 + 4 <= s.code.len());
    }
    lemma_patch_all_32(after8, s.labels, p32);
    let r = s.resolved();
    assert forall|k: int| 0 <= k < p8.len() implies r.subrange(p8[k].1 as int, p8[k].1 + 1) == disp8(
        s.labels[p8[k].0 as int].unwrap() - (p8[k].1 + 1),
    ) by {
        let site = p8[k].1 as int;
        let d = s.labels[p8[k].0 as int].unwrap() - (p8[k].1 + 1);
        lemma_le_bytes_len(twos_complement(d, 1), 1);
        assert(s.pending8[k].1 + 1 <= s.code.len());
        assert forall|j: int| 0 <= j < p32.len() implies !((#[trigger] p32[j]).1 <= site < p32[j].1 + 4) by {
            assert(p8[k].1 + 1 <= p32[j].1 || p32[j].1 + 4 <= p8[k].1);
        }
        assert(r[site] == after8[site]);
        assert(after8[site] == disp8(d)[0]);
        assert(r.subrange(site, site + 1) =~= disp8(d));
    }
    assert forall|k: int| 0 <= k < p32.len() implies r.subrange(p32[k].1 as int, p32[k].1 + 4) == disp32(
        s.labels[p32[k].0 as int].unwrap() - (p32[k].1 + 4),
    ) by {
        let site = p32[k].1 as int;
        let d = s.labels[p32[k].0 as int].unwrap() - (p32[k].1 + 4);
        lemma_le_bytes_len(twos_complement(d, 4), 4);
        assert(s.pending32[k].1 + 4 <= s.code.len());
        assert forall|j: int| 0 <= j < 4 implies r.subrange(site, site + 4)[j] == disp32(d)[j] by {
            assert(r[site + j] == disp32(d)[j]);
        }
        assert(r.subrange(site, site + 4) =~= disp32(d));
    }
    assert forall|pos: int|
        0 <= pos < s.code.len() && (forall|k: int| 0 <= k < s.pending8.len() ==> (#[trigger] s.pending8[k]).1 != pos)
            && (forall|k: int|
            0 <= k < s.pending32.len() ==> !((#[trigger] s.pending32[k]).1 <= pos < s.pending32[k].1 + 4))
            implies #[trigger] r[pos] == s.code[pos] by {
        assert(after8[pos] == s.code[pos]);
    }
}

/// A short branch to a label attached more than 127 bytes past (or more than 128
/// bytes before) the end of the branch fails with `ShortOverflow` and leaves the
/// stream (bytes, cursor, labels, queues) exactly as it was before the branch.
pub proof fn lemma_short_branch_rollback(
    s: StreamView,
    opcode: Seq<u8>,
    label: Label,
    r: ShortJmpResult,
    t: StreamView,
)
    requires
        short_branch(s, opcode, label, r, t),
        s.labels[label.0 as int] is Some,
        !fits_i8(s.labels[label.0 as int].unwrap() - (s.code.len() + opcode.len() + 1)),
    ensures
        r == Err::<(), ShortOverflow>(ShortOverflow),
        t == s,
        t.code == s.code,
        t.code.len() == s.code.len(),
        t.labels == s.labels,
        t.pending8 == s.pending8,
        t.pending32 == s.pending32,
{
}

/// Aligning twice is aligning once: after padding to a multiple of `alignment`,
/// no further padding is needed.
pub proof fn lemma_alignment_idempotent(position: nat, alignment: nat)
    requires
        alignment > 0,
    ensures
        alignment_padding(position + alignment_padding(position, alignment), alignment) == 0,
        (position + alignment_padding(position, alignment)) % alignment == 0,
{
    let n = position;
    let a = alignment;
    if n % a != 0 {
        let q = (n / a) as int;
        let r = (n % a) as int;
        vstd::arithmetic::div_mod::lemma_fundamental_div_mod(n as int, a as int);
        assert(n + (a - r) == (q + 1) * a) by (nonlinear_arith)
            requires
                n == a * q + r,
        ;
        vstd::arithmetic::div_mod::lemma_mod_multiples_basic(q + 1, a as int);
    }
}

/// A stream in which a one-byte displacement waits on an unattached label
/// cannot be finished.
pub proof fn lemma_unattached_label_blocks_finish_8(s: StreamView, k: int)
    requires
        0 <= k < s.pending8.len(),
        s.labels[s.pending8[k].0 as int] is None,
    ensures
        !s.finishable(),
{
}

/// A stream in which a four-byte displacement waits on an unattached label
/// cannot be finished.
pub proof fn lemma_unattached_label_blocks_finish_32(s: StreamView, k: int)
    requires
        0 <= k < s.pending32.len(),
        s.labels[s.pending32[k].0 as int] is None,
    ensures
        !s.finishable(),
{
}

/// A short branch to a label that is not attached yet leaves a stream that cannot
/// be finished until the label is attached.
pub proof fn lemma_branch_to_unattached_label_blocks_finish(
    s: StreamView,
    opcode: Seq<u8>,
    label: Label,
    r: ShortJmpResult,
    t: StreamView,
)
    requires
        short_branch(s, opcode, label, r, t),
        s.labels[label.0 as int] is None,
    ensures
        !t.finishable(),
{
    let k = t.pending8.len() - 1;
    assert(t.pending8[k] == (label.0, (s.code.len() + opcode.len()) as usize));
    lemma_unattached_label_blocks_finish_8(t, k);
}

/// A register-direct operand pair takes one `ModR/M` byte: `11`, then the low
/// three bits of `reg`, then the low three bits of the `rm` register.
pub proof fn lemma_register_mod_rm(reg: u8, rm: u8)
    requires
        rm < 16,
    ensures
        mod_rm_sib_bytes(reg, direct(rm)) == seq![(0xC0 + (reg % 8) * 8 + rm % 8) as u8],
{
}

/// The `REX` byte is absent exactly when nothing asks for it; otherwise it is one
/// byte `0100WRXB`, between `0x40` and `0x4F`.
pub proof fn lemma_rex_prefix_shape(w: bool, r: bool, x: bool, b: bool, force: bool)
    ensures
        !w && !r && !x && !b && !force ==> rex_prefix(w, r, x, b, force) == Seq::<u8>::empty(),
        w || r || x || b || force ==> rex_prefix(w, r, x, b, force) == seq![rex_value(w, r, x, b)],
        0x40 <= rex_value(w, r, x, b) <= 0x4F,
        rex_value(w, r, x, b) == 0x40 + (if w { 8int } else { 0 }) + (if r { 4int } else { 0 }) + (if x {
            2int
        } else {
            0
        }) + (if b { 1int } else { 0 }),
{
    assert(!w && !r && !x && !b ==> rex_value(w, r, x, b) == 0x40);
    assert(w || r || x || b ==> rex_value(w, r, x, b) != 0x40);
}

/// The `VEX` prefix of an instruction without a `ModR/M` operand (no `R`, `X`,
/// `B`): `C5` with one byte when `mmmmm` is 1 and `W` is clear, else `C4` with two;
/// `vvvv` is stored inverted.
pub proof fn lemma_vex_without_operand(mmmmm: u8, l: u8, pp: u8, w: bool, vvvv: u8)
    requires
        vex_fields_wf(mmmmm, l, pp, vvvv),
    ensures
        vex_prefix(mmmmm, l, pp, w, vvvv, false, false, false) == if mmmmm == 1 && !w {
            seq![0xC5u8, (0x80 + (15 - vvvv) * 8 + l * 4 + pp) as u8]
        } else {
            seq![
                0xC4u8,
                (0xE0 + mmmmm) as u8,
                ((if w { 0x80int } else { 0 }) + (15 - vvvv) * 8 + l * 4 + pp) as u8,
            ]
        },
{
}

/// Immediates and displacements are written with their width in bytes.
pub proof fn lemma_immediate_widths(a: Immediate8Bit, b: Immediate16Bit, c: Immediate32Bit, d: Immediate64Bit)
    ensures
        a.displacement_bytes().len() == 1,
        b.displacement_bytes().len() == 2,
        c.displacement_bytes().len() == 4,
        d.displacement_bytes().len() == 8,
{
    lemma_le_bytes_len(twos_complement(a.0 as int, 1), 1);
    lemma_le_bytes_len(twos_complement(b.0 as int, 2), 2);
    lemma_le_bytes_len(twos_complement(c.0 as int, 4), 4);
    lemma_le_bytes_len(twos_complement(d.0 as int, 8), 8);
}

} // verus!
