//! The fixed-capacity scratch buffers the toolkit's geometry converter
//! fills each frame.
//!
//! A scratch buffer never grows: writing past its capacity silently drops
//! the excess bytes, exactly the truncation the toolkit applies to a frame
//! whose geometry exceeds the ceiling. Oversized content loses geometry,
//! it never overflows the buffer.

use vstd::prelude::*;

verus! {

/// Capacity of the index scratch buffer in bytes (128 KiB).
pub const MAX_INDEX_BUFFER_SIZE: usize = 128 * 1024;

/// Capacity of the vertex scratch buffer in bytes (512 KiB).
pub const MAX_VERTEX_BUFFER_SIZE: usize = 512 * 1024;

/// The smaller of two lengths.
pub open spec fn min_len(a: int, b: int) -> int {
    if a <= b {
        a
    } else {
        b
    }
}

/// A pre-allocated byte region of fixed capacity with a fill mark.
pub struct ScratchBuffer {
    bytes: Vec<u8>,
    used: usize,
}

impl ScratchBuffer {
    /// The buffer's fixed capacity in bytes.
    pub closed spec fn capacity_spec(&self) -> int {
        self.bytes@.len() as int
    }

    /// How many bytes have been written this frame.
    pub closed spec fn used_spec(&self) -> int {
        self.used as int
    }

    /// The whole backing region, written and unwritten bytes alike.
    pub closed spec fn bytes_spec(&self) -> Seq<u8> {
        self.bytes@
    }

    /// The fill mark never passes the capacity.
    pub open spec fn wf(&self) -> bool {
        self.used_spec() <= self.capacity_spec()
    }

    /// Allocates a zeroed buffer of `cap` bytes.
    pub fn new(cap: usize) -> (b: ScratchBuffer)
        ensures
            b.wf(),
            b.capacity_spec() == cap,
            b.used_spec() == 0,
            forall|j: int| 0 <= j < cap ==> b.bytes_spec()[j] == 0u8,
    {
        let mut bytes: Vec<u8> = Vec::new();
        let mut j: usize = 0;
        while j < cap
            invariant
                j <= cap,
                bytes@.len() == j,
                forall|k: int| 0 <= k < j ==> bytes@[k] == 0u8,
            decreases cap - j,
        {
            bytes.push(0u8);
            j = j + 1;
        }
        ScratchBuffer { bytes, used: 0 }
    }

    /// The fixed capacity.
    pub fn capacity(&self) -> (n: usize)
        ensures
            n == self.capacity_spec(),
    {
        self.bytes.len()
    }

    /// The fill mark.
    pub fn used(&self) -> (n: usize)
        ensures
            n == self.used_spec(),
    {
        self.used
    }

    /// The backing bytes, for handing the written range on to an upload;
    /// the slice spans the whole fixed capacity.
    pub fn as_slice(&self) -> (s: &[u8])
        ensures
            s@ == self.bytes_spec(),
            s@.len() == self.capacity_spec(),
    {
        self.bytes.as_slice()
    }

    /// Resets the fill mark for a new frame; the capacity and the bytes
    /// stay.
    pub fn clear(&mut self)
        ensures
            final(self).used_spec() == 0,
            final(self).capacity_spec() == old(self).capacity_spec(),
            final(self).bytes_spec() == old(self).bytes_spec(),
    {
        self.used = 0;
    }

    /// Appends as much of `data` as fits behind the fill mark and reports
    /// how many bytes were kept: everything while there is room, and the
    /// excess is dropped rather than written anywhere. Writing data sized
    /// exactly at the remaining room keeps all of it; one byte more loses
    /// exactly that byte.
    pub fn write(&mut self, data: &Vec<u8>) -> (written: usize)
        requires
            old(self).wf(),
        ensures
            final(self).wf(),
            final(self).capacity_spec() == old(self).capacity_spec(),
            written == min_len(data@.len() as int, old(self).capacity_spec() - old(self).used_spec()),
            final(self).used_spec() == old(self).used_spec() + written,
            forall|j: int|
                0 <= j < written ==> final(self).bytes_spec()[old(self).used_spec() + j]
                    == data@[j],
            forall|j: int|
                0 <= j < old(self).used_spec() ==> final(self).bytes_spec()[j]
                    == old(self).bytes_spec()[j],
            forall|j: int|
                old(self).used_spec() + written <= j < old(self).capacity_spec()
                    ==> final(self).bytes_spec()[j] == old(self).bytes_spec()[j],
    {
        let cap: usize = self.bytes.len();
        let room: usize = cap - self.used;
        let n: usize = if data.len() <= room {
            data.len()
        } else {
            room
        };
        let base: usize = self.used;
        let ghost orig = self.bytes@;
        let mut j: usize = 0;
        while j < n
            invariant
                j <= n,
                n <= data@.len(),
                base + n <= self.bytes@.len(),
                base + n <= usize::MAX,
                self.bytes@.len() == orig.len(),
                forall|k: int| 0 <= k < j ==> self.bytes@[base + k] == data@[k],
                forall|k: int|
                    (0 <= k < base || base + j <= k < orig.len()) ==> self.bytes@[k] == orig[k],
            decreases n - j,
        {
            let v: u8 = data[j];
            self.bytes.set(base + j, v);
            j = j + 1;
        }
        self.used = base + n;
        n
    }
}

} // verus!
