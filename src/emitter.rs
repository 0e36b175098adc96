use vstd::prelude::*;
use crate::encoding::{disp32, disp8, fits_i8};
use crate::immediates::twos_complement;

verus! {

/// Largest region an instruction stream may cover: every displacement between
/// two positions of such a region fits in a signed 32-bit value.
pub const MAX_CAPACITY: usize = 0x7fff_ffff;

/// The `n` little-endian bytes of `v` (the bits of `v` beyond `8 * n` are dropped).
pub open spec fn le_bytes(v: nat, n: nat) -> Seq<u8>
    decreases n,
{
    if n == 0 {
        seq![]
    } else {
        seq![(v % 256) as u8] + le_bytes(v / 256, (n - 1) as nat)
    }
}

pub proof fn lemma_le_bytes_len(v: nat, n: nat)
    ensures
        le_bytes(v, n).len() == n,
    decreases n,
{
    if n > 0 {
        lemma_le_bytes_len(v / 256, (n - 1) as nat);
    }
}

/// `code` with the bytes from position `at` on replaced by `bytes`.
pub open spec fn splice(code: Seq<u8>, at: int, bytes: Seq<u8>) -> Seq<u8> {
    code.subrange(0, at) + bytes + code.subrange(at + bytes.len(), code.len() as int)
}

/// The `width` low bytes of `value`, least significant first.
pub fn le_bytes_vec(value: u128, width: usize) -> (r: Vec<u8>)
    ensures
        r@ == le_bytes(value as nat, width as nat),
{
    let mut out: Vec<u8> = Vec::new();
    let mut x: u128 = value;
    let mut i: usize = 0;
    while i < width
        invariant
            i <= width,
            out@.len() == i,
            out@ + le_bytes(x as nat, (width - i) as nat) == le_bytes(value as nat, width as nat),
        decreases width - i,
    {
        let ghost before = out@;
        let ghost xs = x as nat;
        let b: u8 = (x % 256) as u8;
        out.push(b);
        x = x / 256;
        i = i + 1;
        proof {
            let rest = (width - i) as nat;
            assert(le_bytes(xs, rest + 1) == seq![(xs % 256) as u8] + le_bytes(xs / 256, rest));
            assert(before.push(b) + le_bytes(xs / 256, rest) =~= before + (seq![b] + le_bytes(
                xs / 256,
                rest,
            )));
        }
    }
    assert(out@ + le_bytes(x as nat, 0) =~= out@);
    out
}

/// Bits of `d` as an unsigned number of `width` bytes, for `d` in range.
fn twos_complement_bits(d: i64, width: usize) -> (r: u128)
    requires
        width == 1 || width == 4,
        width == 1 ==> -128 <= d < 128,
        width == 4 ==> -0x8000_0000 <= d < 0x8000_0000,
    ensures
        r == twos_complement(d as int, width as nat),
{
    proof {
        vstd::arithmetic::power2::lemma2_to64();
    }
    if d >= 0 {
        d as u128
    } else if width == 1 {
        (d + 0x100) as u128
    } else {
        (d + 0x1_0000_0000) as u128
    }
}

/// Append-only cursor over a pre-sized buffer, with a saved cursor for rollback.
///
/// The cursor is the length of what has been written so far.
pub struct ByteEmitter {
    bytes: Vec<u8>,
    capacity: usize,
    bookmark: usize,
}

impl ByteEmitter {
    /// What has been written so far; its length is the cursor.
    pub closed spec fn code(&self) -> Seq<u8> {
        self.bytes@
    }

    pub closed spec fn spec_capacity(&self) -> nat {
        self.capacity as nat
    }

    pub closed spec fn spec_bookmark(&self) -> nat {
        self.bookmark as nat
    }

    pub closed spec fn wf(&self) -> bool {
        &&& self.bookmark <= self.bytes@.len() <= self.capacity
        &&& self.capacity <= MAX_CAPACITY
    }

    pub open spec fn room(&self) -> int {
        self.spec_capacity() - self.code().len()
    }

    pub fn new(capacity: usize) -> (r: Self)
        requires
            capacity <= MAX_CAPACITY,
        ensures
            r.wf(),
            r.code() == Seq::<u8>::empty(),
            r.spec_capacity() == capacity,
            r.spec_bookmark() == 0,
    {
        ByteEmitter { bytes: Vec::new(), capacity, bookmark: 0 }
    }

    pub fn instruction_pointer(&self) -> (r: usize)
        requires
            self.wf(),
        ensures
            r == self.code().len(),
    {
        self.bytes.len()
    }

    pub fn capacity(&self) -> (r: usize)
        ensures
            r == self.spec_capacity(),
    {
        self.capacity
    }

    pub fn emit_u8(&mut self, byte: u8)
        requires
            old(self).wf(),
            old(self).room() >= 1,
        ensures
            final(self).wf(),
            final(self).code() == old(self).code().push(byte),
            final(self).spec_capacity() == old(self).spec_capacity(),
            final(self).spec_bookmark() == old(self).spec_bookmark(),
    {
        self.bytes.push(byte);
    }

    /// Writes `byte` unless it is zero.
    pub fn emit_u8_if_not_zero(&mut self, byte: u8)
        requires
            old(self).wf(),
            old(self).room() >= 1,
        ensures
            final(self).wf(),
            final(self).code() == if byte == 0 {
                old(self).code()
            } else {
                old(self).code().push(byte)
            },
            final(self).spec_capacity() == old(self).spec_capacity(),
            final(self).spec_bookmark() == old(self).spec_bookmark(),
    {
        if byte != 0 {
            self.bytes.push(byte);
        }
    }

    /// Writes the `width` low bytes of `value`, least significant first.
    pub fn emit_le(&mut self, value: u128, width: usize)
        requires
            old(self).wf(),
            old(self).room() >= width,
        ensures
            final(self).wf(),
            final(self).code() == old(self).code() + le_bytes(value as nat, width as nat),
            final(self).spec_capacity() == old(self).spec_capacity(),
            final(self).spec_bookmark() == old(self).spec_bookmark(),
    {
        let bytes = le_bytes_vec(value, width);
        proof {
            lemma_le_bytes_len(value as nat, width as nat);
        }
        self.emit_bytes(bytes.as_slice());
    }

    pub fn emit_bytes(&mut self, data: &[u8])
        requires
            old(self).wf(),
            old(self).room() >= data@.len(),
        ensures
            final(self).wf(),
            final(self).code() == old(self).code() + data@,
            final(self).spec_capacity() == old(self).spec_capacity(),
            final(self).spec_bookmark() == old(self).spec_bookmark(),
    {
        let mut i: usize = 0;
        while i < data.len()
            invariant
                self.wf(),
                i <= data@.len(),
                self.capacity == old(self).capacity,
                self.bookmark == old(self).bookmark,
                old(self).code().len() + data@.len() <= self.capacity,
                self.bytes@ == old(self).code() + data@.subrange(0, i as int),
            decreases data@.len() - i,
        {
            self.bytes.push(data[i]);
            i = i + 1;
            assert(self.bytes@ =~= old(self).code() + data@.subrange(0, i as int));
        }
        assert(data@.subrange(0, data@.len() as int) =~= data@);
    }

    /// Advances the cursor by `count` bytes, reserving them (as zeros) for a later patch.
    pub fn skip(&mut self, count: usize)
        requires
            old(self).wf(),
            old(self).room() >= count,
        ensures
            final(self).wf(),
            final(self).code() == old(self).code() + Seq::new(count as nat, |i: int| 0u8),
            final(self).spec_capacity() == old(self).spec_capacity(),
            final(self).spec_bookmark() == old(self).spec_bookmark(),
    {
        let mut i: usize = 0;
        while i < count
            invariant
                self.wf(),
                i <= count,
                self.capacity == old(self).capacity,
                self.bookmark == old(self).bookmark,
                old(self).code().len() + count <= self.capacity,
                self.bytes@ == old(self).code() + Seq::new(i as nat, |k: int| 0u8),
            decreases count - i,
        {
            self.bytes.push(0);
            i = i + 1;
            assert(self.bytes@ =~= old(self).code() + Seq::new(i as nat, |k: int| 0u8));
        }
    }

    pub fn store_bookmark(&mut self)
        requires
            old(self).wf(),
        ensures
            final(self).wf(),
            final(self).code() == old(self).code(),
            final(self).spec_capacity() == old(self).spec_capacity(),
            final(self).spec_bookmark() == old(self).code().len(),
    {
        self.bookmark = self.bytes.len();
    }

    /// Moves the cursor back to the bookmark, forgetting what was written since.
    pub fn reset_to_bookmark(&mut self)
        requires
            old(self).wf(),
        ensures
            final(self).wf(),
            final(self).code() == old(self).code().subrange(0, old(self).spec_bookmark() as int),
            final(self).spec_capacity() == old(self).spec_capacity(),
            final(self).spec_bookmark() == old(self).spec_bookmark(),
    {
        self.bytes.truncate(self.bookmark);
    }

    /// Overwrites already written bytes from position `at` on.
    pub fn overwrite(&mut self, at: usize, data: &[u8])
        requires
            old(self).wf(),
            at + data@.len() <= old(self).code().len(),
        ensures
            final(self).wf(),
            final(self).code() == splice(old(self).code(), at as int, data@),
            final(self).spec_capacity() == old(self).spec_capacity(),
            final(self).spec_bookmark() == old(self).spec_bookmark(),
    {
        let mut i: usize = 0;
        while i < data.len()
            invariant
                self.wf(),
                i <= data@.len(),
                at + data@.len() <= self.bytes@.len(),
                self.capacity == old(self).capacity,
                self.bookmark == old(self).bookmark,
                self.bytes@.len() == old(self).code().len(),
                forall|k: int|
                    0 <= k < self.bytes@.len() ==> #[trigger] self.bytes@[k] == if at <= k < at + i {
                        data@[k - at]
                    } else {
                        old(self).code()[k]
                    },
            decreases data@.len() - i,
        {
            self.bytes.set(at + i, data[i]);
            i = i + 1;
        }
        assert(self.bytes@ =~= splice(old(self).code(), at as int, data@));
    }

    /// Writes `target - (site + 1)` as a signed byte at `site`; fails, writing
    /// nothing, when it does not fit.
    pub fn patch_rel8(&mut self, site: usize, target: usize) -> (r: Result<(), ()>)
        requires
            old(self).wf(),
            site + 1 <= old(self).code().len(),
            target <= MAX_CAPACITY,
        ensures
            final(self).wf(),
            final(self).spec_capacity() == old(self).spec_capacity(),
            final(self).spec_bookmark() == old(self).spec_bookmark(),
            final(self).code().len() == old(self).code().len(),
            r is Ok <==> fits_i8(target - (site + 1)),
            r is Ok ==> final(self).code() == splice(old(self).code(), site as int, disp8(target - (site + 1))),
            r is Err ==> final(self).code() == old(self).code(),
    {
        let displacement: i64 = target as i64 - (site as i64 + 1);
        if -128 <= displacement && displacement < 128 {
            let bytes = le_bytes_vec(twos_complement_bits(displacement, 1), 1);
            proof {
                lemma_le_bytes_len(twos_complement(displacement as int, 1), 1);
            }
            self.overwrite(site, bytes.as_slice());
            Ok(())
        } else {
            Err(())
        }
    }

    /// Writes `target - (site + 4)` as a signed little-endian 32-bit value at `site`.
    pub fn patch_rel32(&mut self, site: usize, target: usize)
        requires
            old(self).wf(),
            site + 4 <= old(self).code().len(),
            target <= MAX_CAPACITY,
        ensures
            final(self).wf(),
            final(self).spec_capacity() == old(self).spec_capacity(),
            final(self).spec_bookmark() == old(self).spec_bookmark(),
            final(self).code().len() == old(self).code().len(),
            final(self).code() == splice(old(self).code(), site as int, disp32(target - (site + 4))),
    {
        let displacement: i64 = target as i64 - (site as i64 + 4);
        let bytes = le_bytes_vec(twos_complement_bits(displacement, 4), 4);
        proof {
            lemma_le_bytes_len(twos_complement(displacement as int, 4), 4);
        }
        self.overwrite(site, bytes.as_slice());
    }

    /// Gives up the buffer, holding exactly what was written.
    pub fn into_bytes(self) -> (r: Vec<u8>)
        ensures
            r@ == self.code(),
    {
        self.bytes
    }
}

} // verus!
