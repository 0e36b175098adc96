use vstd::prelude::*;
use crate::emitter::{ByteEmitter, MAX_CAPACITY, le_bytes, lemma_le_bytes_len, splice};
use crate::encoding::{disp32, disp8, fits_i8};

verus! {

/// A label: a name for a position in one instruction stream.
#[derive(Debug, Clone, Copy, PartialEq, Eq, Structural, Hash)]
pub struct Label(pub usize);

/// An 8-bit branch whose target is already known lies too far away; the stream
/// was rolled back to where the instruction started.
#[derive(Debug, Clone, Copy, PartialEq, Eq, Structural, Hash)]
pub struct ShortOverflow;

/// Outcome of emitting an 8-bit branch.
pub type ShortJmpResult = Result<(), ShortOverflow>;

/// What an instruction stream holds, as mathematical values.
pub struct StreamView {
    /// Bytes written so far; the cursor is its length.
    pub code: Seq<u8>,
    pub capacity: nat,
    /// Cursor saved for rolling back a short branch.
    pub bookmark: nat,
    /// Position of each label, by label number; `None` while unattached.
    pub labels: Seq<Option<usize>>,
    /// Pending one-byte displacements: (label number, patch site).
    pub pending8: Seq<(usize, usize)>,
    /// Pending four-byte displacements: (label number, patch site).
    pub pending32: Seq<(usize, usize)>,
}

/// Patch sites of the two queues never overlap: each one was reserved at the
/// cursor, after everything reserved before it.
pub open spec fn sites_disjoint(p8: Seq<(usize, usize)>, p32: Seq<(usize, usize)>) -> bool {
    &&& forall|i: int, j: int| 0 <= i < j < p8.len() ==> p8[i].1 + 1 <= p8[j].1
    &&& forall|i: int, j: int| 0 <= i < j < p32.len() ==> p32[i].1 + 4 <= p32[j].1
    &&& forall|i: int, j: int|
        0 <= i < p8.len() && 0 <= j < p32.len() ==> p8[i].1 + 1 <= p32[j].1 || p32[j].1 + 4 <= p8[i].1
}

/// `code` with each pending one-byte displacement written, in queue order.
pub open spec fn patch_all_8(code: Seq<u8>, labels: Seq<Option<usize>>, p8: Seq<(usize, usize)>) -> Seq<u8>
    decreases p8.len(),
{
    if p8.len() == 0 {
        code
    } else {
        let (l, s) = p8.last();
        splice(
            patch_all_8(code, labels, p8.drop_last()),
            s as int,
            disp8(labels[l as int].unwrap() - (s + 1)),
        )
    }
}

/// `code` with each pending four-byte displacement written, in queue order.
pub open spec fn patch_all_32(code: Seq<u8>, labels: Seq<Option<usize>>, p32: Seq<(usize, usize)>) -> Seq<u8>
    decreases p32.len(),
{
    if p32.len() == 0 {
        code
    } else {
        let (l, s) = p32.last();
        splice(
            patch_all_32(code, labels, p32.drop_last()),
            s as int,
            disp32(labels[l as int].unwrap() - (s + 4)),
        )
    }
}

/// Padding needed to bring `position` to a multiple of `alignment`.
pub open spec fn alignment_padding(position: nat, alignment: nat) -> nat {
    if position % alignment == 0 {
        0
    } else {
        (alignment - position % alignment) as nat
    }
}

impl StreamView {
    pub open spec fn wf(self) -> bool {
        &&& self.bookmark <= self.code.len() <= self.capacity <= MAX_CAPACITY
        &&& forall|i: int|
            0 <= i < self.labels.len() && (#[trigger] self.labels[i]) is Some ==> self.labels[i].unwrap()
                <= self.code.len()
        &&& forall|k: int|
            0 <= k < self.pending8.len() ==> (#[trigger] self.pending8[k]).0 < self.labels.len()
                && self.pending8[k].1 + 1 <= self.code.len()
        &&& forall|k: int|
            0 <= k < self.pending32.len() ==> (#[trigger] self.pending32[k]).0 < self.labels.len()
                && self.pending32[k].1 + 4 <= self.code.len()
        &&& sites_disjoint(self.pending8, self.pending32)
    }

    pub open spec fn room(self) -> int {
        self.capacity - self.code.len()
    }

    /// The same stream with `bytes` written at the cursor.
    pub open spec fn emitted(self, bytes: Seq<u8>) -> StreamView {
        StreamView { code: self.code + bytes, ..self }
    }

    /// Whether `label` is a label of this stream.
    pub open spec fn has_label(self, label: Label) -> bool {
        label.0 < self.labels.len()
    }

    /// The stream's bytes once every pending displacement is written.
    pub open spec fn resolved(self) -> Seq<u8> {
        patch_all_32(patch_all_8(self.code, self.labels, self.pending8), self.labels, self.pending32)
    }

    /// Every pending displacement has an attached label, and every pending
    /// one-byte displacement fits in a signed byte.
    pub open spec fn finishable(self) -> bool {
        &&& forall|k: int|
            0 <= k < self.pending8.len() ==> (#[trigger] self.labels[self.pending8[k].0 as int]) is Some
                && fits_i8(self.labels[self.pending8[k].0 as int].unwrap() - (self.pending8[k].1 + 1))
        &&& forall|k: int|
            0 <= k < self.pending32.len() ==> (#[trigger] self.labels[self.pending32[k].0 as int]) is Some
    }
}

/// Builds x86-64 machine code in a buffer of fixed capacity, with labels whose
/// displacements are written once their positions are known.
///
/// An 8-bit branch to a label that is already attached fails with `ShortOverflow`
/// when the displacement does not fit, and the stream is rolled back to where the
/// instruction started, so that the caller can emit a 32-bit branch instead.
pub struct InstructionStream {
    byte_emitter: ByteEmitter,
    labelled_locations: Vec<Option<usize>>,
    instruction_pointers_to_replace_labels_with_8_bit_displacements: Vec<(usize, usize)>,
    instruction_pointers_to_replace_labels_with_32_bit_displacements: Vec<(usize, usize)>,
}

impl View for InstructionStream {
    type V = StreamView;

    closed spec fn view(&self) -> StreamView {
        StreamView {
            code: self.byte_emitter.code(),
            capacity: self.byte_emitter.spec_capacity(),
            bookmark: self.byte_emitter.spec_bookmark(),
            labels: self.labelled_locations@,
            pending8: self.instruction_pointers_to_replace_labels_with_8_bit_displacements@,
            pending32: self.instruction_pointers_to_replace_labels_with_32_bit_displacements@,
        }
    }
}

impl InstructionStream {
    pub closed spec fn wf(&self) -> bool {
        &&& self.byte_emitter.wf()
        &&& self@.wf()
    }

    /// A well-formed stream has a well-formed view (so the laws on views apply to it).
    pub proof fn lemma_view_wf(&self)
        requires
            self.wf(),
        ensures
            self@.wf(),
    {
    }

    /// A stream over an empty buffer of `capacity` bytes.
    pub fn new(capacity: usize, likely_number_of_labels_hint: usize) -> (r: Self)
        requires
            capacity <= MAX_CAPACITY,
        ensures
            r.wf(),
            r@.code == Seq::<u8>::empty(),
            r@.capacity == capacity,
            r@.bookmark == 0,
            r@.labels == Seq::<Option<usize>>::empty(),
            r@.pending8 == Seq::<(usize, usize)>::empty(),
            r@.pending32 == Seq::<(usize, usize)>::empty(),
    {
        InstructionStream {
            byte_emitter: ByteEmitter::new(capacity),
            labelled_locations: Vec::with_capacity(likely_number_of_labels_hint),
            instruction_pointers_to_replace_labels_with_8_bit_displacements: Vec::with_capacity(
                likely_number_of_labels_hint,
            ),
            instruction_pointers_to_replace_labels_with_32_bit_displacements: Vec::with_capacity(
                likely_number_of_labels_hint,
            ),
        }
    }

    /// Current position (cursor).
    pub fn instruction_pointer(&self) -> (r: usize)
        requires
            self.wf(),
        ensures
            r == self@.code.len(),
    {
        self.byte_emitter.instruction_pointer()
    }

    /// Number of bytes the stream can hold.
    pub fn capacity(&self) -> (r: usize)
        ensures
            r == self@.capacity,
    {
        self.byte_emitter.capacity()
    }

    /// Saves the cursor, to roll back to if a short branch does not fit.
    pub fn bookmark(&mut self)
        requires
            old(self).wf(),
        ensures
            final(self).wf(),
            final(self)@ == (StreamView { bookmark: old(self)@.code.len(), ..old(self)@ }),
    {
        self.byte_emitter.store_bookmark();
    }

    /// Emits (pushes) a byte into the instruction stream at the current location.
    pub fn emit_byte(&mut self, byte: u8)
        requires
            old(self).wf(),
            old(self)@.room() >= 1,
        ensures
            final(self).wf(),
            final(self)@ == old(self)@.emitted(seq![byte]),
    {
        self.byte_emitter.emit_u8(byte);
        assert(old(self)@.code.push(byte) =~= old(self)@.code + seq![byte]);
    }

    /// Emits `byte` unless it is zero.
    pub fn emit_byte_if_not_zero(&mut self, byte: u8)
        requires
            old(self).wf(),
            old(self)@.room() >= 1,
        ensures
            final(self).wf(),
            final(self)@ == old(self)@.emitted(if byte == 0 { seq![] } else { seq![byte] }),
    {
        self.byte_emitter.emit_u8_if_not_zero(byte);
        assert(old(self)@.code.push(byte) =~= old(self)@.code + seq![byte]);
        assert(old(self)@.code + seq![] =~= old(self)@.code);
    }

    /// Emits the `width` low bytes of `value`, little-endian.
    fn emit_little_endian(&mut self, value: u128, width: usize)
        requires
            old(self).wf(),
            old(self)@.room() >= width,
        ensures
            final(self).wf(),
            final(self)@ == old(self)@.emitted(le_bytes(value as nat, width as nat)),
    {
        proof {
            lemma_le_bytes_len(value as nat, width as nat);
        }
        self.byte_emitter.emit_le(value, width);
    }

    /// Emits (pushes) a word (2 bytes, little-endian) into the instruction stream.
    pub fn emit_word(&mut self, word: u16)
        requires
            old(self).wf(),
            old(self)@.room() >= 2,
        ensures
            final(self).wf(),
            final(self)@ == old(self)@.emitted(le_bytes(word as nat, 2)),
    {
        self.emit_little_endian(word as u128, 2)
    }

    /// Emits (pushes) a double word (4 bytes, little-endian) into the instruction stream.
    pub fn emit_double_word(&mut self, double_word: u32)
        requires
            old(self).wf(),
            old(self)@.room() >= 4,
        ensures
            final(self).wf(),
            final(self)@ == old(self)@.emitted(le_bytes(double_word as nat, 4)),
    {
        self.emit_little_endian(double_word as u128, 4)
    }

    /// Emits (pushes) a quad word (8 bytes, little-endian) into the instruction stream.
    pub fn emit_quad_word(&mut self, quad_word: u64)
        requires
            old(self).wf(),
            old(self)@.room() >= 8,
        ensures
            final(self).wf(),
            final(self)@ == old(self)@.emitted(le_bytes(quad_word as nat, 8)),
    {
        self.emit_little_endian(quad_word as u128, 8)
    }

    /// Emits (pushes) a double quad word (16 bytes, little-endian) into the instruction stream.
    pub fn emit_double_quad_word(&mut self, double_quad_word: u128)
        requires
            old(self).wf(),
            old(self)@.room() >= 16,
        ensures
            final(self).wf(),
            final(self)@ == old(self)@.emitted(le_bytes(double_quad_word as nat, 16)),
    {
        self.emit_little_endian(double_quad_word, 16)
    }

    /// Emits (pushes) zero or more bytes into the instruction stream.
    pub fn emit_bytes(&mut self, bytes: &[u8])
        requires
            old(self).wf(),
            old(self)@.room() >= bytes@.len(),
        ensures
            final(self).wf(),
            final(self)@ == old(self)@.emitted(bytes@),
    {
        self.byte_emitter.emit_bytes(bytes)
    }

    /// Emits `NOP`s (`0x90`) until the cursor is a multiple of `alignment`.
    pub fn emit_alignment(&mut self, alignment: usize)
        requires
            old(self).wf(),
            alignment > 0,
            old(self)@.room() >= alignment_padding(old(self)@.code.len(), alignment as nat),
        ensures
            final(self).wf(),
            final(self)@ == old(self)@.emitted(
                Seq::new(alignment_padding(old(self)@.code.len(), alignment as nat), |i: int| 0x90u8),
            ),
            final(self)@.code.len() % (alignment as nat) == 0,
    {
        let offset = self.instruction_pointer() % alignment;
        let padding: usize = if offset == 0 {
            0
        } else {
            alignment - offset
        };
        let ghost start = self@;
        let mut i: usize = 0;
        while i < padding
            invariant
                self.wf(),
                i <= padding,
                padding == alignment_padding(start.code.len(), alignment as nat),
                start.room() >= padding,
                self@ == start.emitted(Seq::new(i as nat, |k: int| 0x90u8)),
            decreases padding - i,
        {
            self.emit_byte(0x90);
            i = i + 1;
            assert(self@.code =~= start.code + Seq::new(i as nat, |k: int| 0x90u8));
        }
        proof {
            let n = start.code.len();
            let a = alignment as nat;
            if n % a != 0 {
                vstd::arithmetic::div_mod::lemma_fundamental_div_mod(n as int, a as int);
                vstd::arithmetic::div_mod::lemma_mod_multiples_basic((n / a + 1) as int, a as int);
                let q = (n / a) as int;
                let r = (n % a) as int;
                assert(n + (a - r) == (q + 1) * a) by (nonlinear_arith)
                    requires
                        n == a * q + r,
                ;
            }
        }
    }

    /// Creates an unique label, scoped to this stream. It starts unattached.
    pub fn create_label(&mut self) -> (r: Label)
        requires
            old(self).wf(),
            old(self)@.labels.len() < usize::MAX,
        ensures
            final(self).wf(),
            r.0 == old(self)@.labels.len(),
            final(self)@ == (StreamView { labels: old(self)@.labels.push(None), ..old(self)@ }),
    {
        let label = Label(self.labelled_locations.len());
        self.labelled_locations.push(None);
        proof {
            let v = self@;
            assert forall|i: int|
                0 <= i < v.labels.len() && (#[trigger] v.labels[i]) is Some implies v.labels[i].unwrap()
                <= v.code.len() by {
                assert(v.labels[i] == old(self)@.labels[i]);
            }
        }
        label
    }

    /// Labels the current location. A label is attached at most once.
    pub fn attach_label(&mut self, label: Label)
        requires
            old(self).wf(),
            old(self)@.has_label(label),
            old(self)@.labels[label.0 as int] is None,
        ensures
            final(self).wf(),
            final(self)@ == (StreamView {
                labels: old(self)@.labels.update(label.0 as int, Some(old(self)@.code.len() as usize)),
                ..old(self)@
            }),
    {
        let instruction_pointer = self.instruction_pointer();
        self.labelled_locations.set(label.0, Some(instruction_pointer));
    }

    /// Creates an unique label and attaches it to the current location.
    pub fn create_and_attach_label(&mut self) -> (r: Label)
        requires
            old(self).wf(),
            old(self)@.labels.len() < usize::MAX,
        ensures
            final(self).wf(),
            r.0 == old(self)@.labels.len(),
            final(self)@ == (StreamView {
                labels: old(self)@.labels.push(Some(old(self)@.code.len() as usize)),
                ..old(self)@
            }),
    {
        let label = self.create_label();
        self.attach_label(label);
        assert(self@.labels =~= old(self)@.labels.push(Some(old(self)@.code.len() as usize)));
        label
    }

    /// Where `label` is attached, if it is.
    pub fn label_location(&self, label: Label) -> (r: Option<usize>)
        requires
            self.wf(),
            self@.has_label(label),
        ensures
            r == self@.labels[label.0 as int],
    {
        self.labelled_locations[label.0]
    }

    /// Writes a one-byte displacement to `label` at the cursor, first saving the
    /// cursor as the bookmark. If the label is attached and the displacement does
    /// not fit, rolls back to that bookmark (nothing is written) and fails. If the
    /// label is not attached, reserves the byte and queues it for `finish`.
    pub fn displacement_label_8bit(&mut self, label: Label) -> (r: ShortJmpResult)
        requires
            old(self).wf(),
            old(self)@.has_label(label),
            old(self)@.room() >= 1,
        ensures
            final(self).wf(),
            ({
                let s = old(self)@;
                let site = s.code.len();
                let start = StreamView { bookmark: site, ..s };
                match s.labels[label.0 as int] {
                    Some(target) => if fits_i8(target - (site + 1)) {
                        r is Ok && final(self)@ == start.emitted(disp8(target - (site + 1)))
                    } else {
                        r == Err::<(), ShortOverflow>(ShortOverflow) && final(self)@ == start
                    },
                    None => r is Ok && final(self)@ == (StreamView {
                        pending8: s.pending8.push((label.0, site as usize)),
                        ..start.emitted(seq![0u8])
                    }),
                }
            }),
    {
        self.bookmark();
        let target_instruction_pointer = self.labelled_locations[label.0];
        let insert_at_instruction_pointer = self.instruction_pointer();
        match target_instruction_pointer {
            Some(target) => {
                self.byte_emitter.skip(1);
                proof {
                    crate::encoding::lemma_displacement_lengths(target - (insert_at_instruction_pointer + 1));
                }
                match self.byte_emitter.patch_rel8(insert_at_instruction_pointer, target) {
                    Ok(()) => {
                        assert(splice(
                            old(self)@.code + Seq::new(1, |i: int| 0u8),
                            insert_at_instruction_pointer as int,
                            disp8(target - (insert_at_instruction_pointer + 1)),
                        ) =~= old(self)@.code + disp8(target - (insert_at_instruction_pointer + 1)));
                        Ok(())
                    },
                    Err(()) => {
                        self.byte_emitter.reset_to_bookmark();
                        assert((old(self)@.code + Seq::new(1, |i: int| 0u8)).subrange(
                            0,
                            old(self)@.code.len() as int,
                        ) =~= old(self)@.code);
                        Err(ShortOverflow)
                    },
                }
            },
            None => {
                self.instruction_pointers_to_replace_labels_with_8_bit_displacements.push(
                    (label.0, insert_at_instruction_pointer),
                );
                self.byte_emitter.skip(1);
                assert(Seq::new(1, |i: int| 0u8) =~= seq![0u8]);
                Ok(())
            },
        }
    }

    /// Writes a four-byte displacement to `label`, or reserves it and queues it for
    /// `finish` if the label is not attached yet.
    pub fn displacement_label_32bit(&mut self, label: Label)
        requires
            old(self).wf(),
            old(self)@.has_label(label),
            old(self)@.room() >= 4,
        ensures
            final(self).wf(),
            ({
                let s = old(self)@;
                let site = s.code.len();
                match s.labels[label.0 as int] {
                    Some(target) => final(self)@ == s.emitted(disp32(target - (site + 4))),
                    None => final(self)@ == (StreamView {
                        pending32: s.pending32.push((label.0, site as usize)),
                        ..s.emitted(Seq::new(4, |i: int| 0u8))
                    }),
                }
            }),
    {
        let target_instruction_pointer = self.labelled_locations[label.0];
        let insert_at_instruction_pointer = self.instruction_pointer();
        match target_instruction_pointer {
            Some(target) => {
                self.byte_emitter.skip(4);
                proof {
                    crate::encoding::lemma_displacement_lengths(target - (insert_at_instruction_pointer + 4));
                }
                self.byte_emitter.patch_rel32(insert_at_instruction_pointer, target);
                assert(splice(
                    old(self)@.code + Seq::new(4, |i: int| 0u8),
                    insert_at_instruction_pointer as int,
                    disp32(target - (insert_at_instruction_pointer + 4)),
                ) =~= old(self)@.code + disp32(target - (insert_at_instruction_pointer + 4)));
            },
            None => {
                self.instruction_pointers_to_replace_labels_with_32_bit_displacements.push(
                    (label.0, insert_at_instruction_pointer),
                );
                self.byte_emitter.skip(4);
            },
        }
    }

    /// Whether `finish` may be called: every pending displacement has an attached
    /// label, and every pending one-byte displacement fits.
    pub fn can_finish(&self) -> (r: bool)
        requires
            self.wf(),
        ensures
            r == self@.finishable(),
    {
        let pending8 = &self.instruction_pointers_to_replace_labels_with_8_bit_displacements;
        let pending32 = &self.instruction_pointers_to_replace_labels_with_32_bit_displacements;
        let mut i: usize = 0;
        while i < pending8.len()
            invariant
                self.wf(),
                pending8@ == self@.pending8,
                i <= pending8@.len(),
                forall|k: int|
                    0 <= k < i ==> (#[trigger] self@.labels[self@.pending8[k].0 as int]) is Some && fits_i8(
                        self@.labels[self@.pending8[k].0 as int].unwrap() - (self@.pending8[k].1 + 1),
                    ),
            decreases pending8@.len() - i,
        {
            let (label, site) = pending8[i];
            assert(self@.pending8[i as int] == (label, site));
            match self.labelled_locations[label] {
                Some(target) => {
                    let displacement: i64 = target as i64 - (site as i64 + 1);
                    if displacement < -128 || displacement > 127 {
                        return false;
                    }
                },
                None => {
                    return false;
                },
            }
            i = i + 1;
        }
        let mut j: usize = 0;
        while j < pending32.len()
            invariant
                self.wf(),
                pending32@ == self@.pending32,
                j <= pending32@.len(),
                forall|k: int|
                    0 <= k < self@.pending8.len() ==> (#[trigger] self@.labels[self@.pending8[k].0 as int]) is Some
                        && fits_i8(
                        self@.labels[self@.pending8[k].0 as int].unwrap() - (self@.pending8[k].1 + 1),
                    ),
                forall|k: int|
                    0 <= k < j ==> (#[trigger] self@.labels[self@.pending32[k].0 as int]) is Some,
            decreases pending32@.len() - j,
        {
            let (label, site) = pending32[j];
            assert(self@.pending32[j as int] == (label, site));
            if self.labelled_locations[label].is_none() {
                return false;
            }
            j = j + 1;
        }
        true
    }

    /// Writes every pending displacement and gives up the finished code.
    ///
    /// Making the code executable is up to the owner of the memory it is copied to.
    pub fn finish(self) -> (r: Vec<u8>)
        requires
            self.wf(),
            self@.finishable(),
        ensures
            r@ == self@.resolved(),
    {
        let ghost s = self@;
        let InstructionStream {
            mut byte_emitter,
            labelled_locations,
            instruction_pointers_to_replace_labels_with_8_bit_displacements: pending8,
            instruction_pointers_to_replace_labels_with_32_bit_displacements: pending32,
        } = self;
        let mut i: usize = 0;
        let n8 = pending8.len();
        while i < n8
            invariant
                byte_emitter.wf(),
                s.wf(),
                s.finishable(),
                n8 == s.pending8.len(),
                i <= n8,
                labelled_locations@ == s.labels,
                pending8@ == s.pending8,
                pending32@ == s.pending32,
                byte_emitter.code() == patch_all_8(s.code, s.labels, s.pending8.subrange(0, i as int)),
                byte_emitter.code().len() == s.code.len(),
            decreases n8 - i,
        {
            let (label, site) = pending8[i];
            assert(s.pending8[i as int] == (label, site));
            let target = labelled_locations[label].unwrap();
            let patched = byte_emitter.patch_rel8(site, target);
            i = i + 1;
            proof {
                let prefix = s.pending8.subrange(0, i as int);
                assert(prefix.drop_last() =~= s.pending8.subrange(0, i - 1));
                assert(prefix.last() == (label, site));
            }
        }
        let ghost after8 = byte_emitter.code();
        assert(s.pending8.subrange(0, n8 as int) =~= s.pending8);
        let mut j: usize = 0;
        let n32 = pending32.len();
        while j < n32
            invariant
                byte_emitter.wf(),
                s.wf(),
                s.finishable(),
                n32 == s.pending32.len(),
                j <= n32,
                labelled_locations@ == s.labels,
                pending32@ == s.pending32,
                after8 == patch_all_8(s.code, s.labels, s.pending8),
                byte_emitter.code() == patch_all_32(after8, s.labels, s.pending32.subrange(0, j as int)),
                byte_emitter.code().len() == s.code.len(),
            decreases n32 - j,
        {
            let (label, site) = pending32[j];
            assert(s.pending32[j as int] == (label, site));
            let target = labelled_locations[label].unwrap();
            byte_emitter.patch_rel32(site, target);
            j = j + 1;
            proof {
                let prefix = s.pending32.subrange(0, j as int);
                assert(prefix.drop_last() =~= s.pending32.subrange(0, j - 1));
                assert(prefix.last() == (label, site));
            }
        }
        assert(s.pending32.subrange(0, n32 as int) =~= s.pending32);
        byte_emitter.into_bytes()
    }
}

} // verus!
