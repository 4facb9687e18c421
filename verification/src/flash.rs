//! In-memory model of the reserved NOR-flash data partition.
//!
//! NOR flash can only be written in two steps: a sector erase sets every
//! byte of the sector to the erased value `0xFF`, and a program operation
//! then overwrites erased bytes.  Programming is only allowed on erased
//! bytes and at word-aligned offsets and lengths, so a store must erase
//! before it writes — skipping the erase is ruled out by `program`'s
//! precondition.
use vstd::prelude::*;

verus! {

/// Value of every byte of an erased sector.
pub const ERASED_BYTE: u8 = 0xFF;

/// Program (write) alignment, in bytes.
pub const WRITE_ALIGN: usize = 4;

/// Erase granularity, in bytes: one sector.
pub const SECTOR_SIZE: usize = 4096;

/// The reserved flash region, byte by byte.
pub struct FlashMem {
    data: Vec<u8>,
}

impl View for FlashMem {
    type V = Seq<u8>;

    closed spec fn view(&self) -> Seq<u8> {
        self.data@
    }
}

impl FlashMem {
    /// A fresh region of `sectors` whole sectors, fully erased.
    pub fn new(sectors: usize) -> (r: FlashMem)
        requires
            1 <= sectors <= 1024,
        ensures
            r@.len() == sectors * SECTOR_SIZE,
            forall|i: int| 0 <= i < r@.len() ==> r@[i] == ERASED_BYTE,
    {
        let len = sectors * SECTOR_SIZE;
        let mut data: Vec<u8> = Vec::new();
        let mut i: usize = 0;
        while i < len
            invariant
                i <= len,
                data@.len() == i,
                forall|j: int| 0 <= j < i ==> data@[j] == ERASED_BYTE,
            decreases len - i,
        {
            data.push(ERASED_BYTE);
            i = i + 1;
        }
        FlashMem { data }
    }

    /// A region holding the given bytes, for replaying captured contents.
    pub fn from_bytes(bytes: Vec<u8>) -> (r: FlashMem)
        ensures
            r@ == bytes@,
    {
        FlashMem { data: bytes }
    }

    /// The region's size in bytes.
    pub fn len(&self) -> (r: usize)
        ensures
            r == self@.len(),
    {
        self.data.len()
    }

    /// Copies `len` bytes starting at `offset` out of the region.
    pub fn read(&self, offset: usize, len: usize) -> (r: Vec<u8>)
        requires
            offset + len <= self@.len(),
        ensures
            r@ == self@.subrange(offset as int, offset + len),
    {
        let _len_bound = self.data.len();
        let mut r: Vec<u8> = Vec::new();
        let mut i: usize = 0;
        while i < len
            invariant
                i <= len,
                offset + len <= self@.len() <= usize::MAX,
                r@ == self@.subrange(offset as int, offset + i),
            decreases len - i,
        {
            r.push(self.data[offset + i]);
            assert(r@ =~= self@.subrange(offset as int, offset + i + 1));
            i = i + 1;
        }
        r
    }

    /// Erases the sectors covering `[offset, offset + len)`: every byte of
    /// the range becomes `ERASED_BYTE`; the rest of the region is untouched.
    pub fn erase(&mut self, offset: usize, len: usize)
        requires
            offset % SECTOR_SIZE == 0,
            len % SECTOR_SIZE == 0,
            offset + len <= old(self)@.len(),
        ensures
            final(self)@.len() == old(self)@.len(),
            forall|i: int|
                offset <= i < offset + len ==> final(self)@[i] == ERASED_BYTE,
            forall|i: int|
                0 <= i < old(self)@.len() && !(offset <= i < offset + len)
                    ==> final(self)@[i] == old(self)@[i],
    {
        let _len_bound = self.data.len();
        let mut i: usize = 0;
        while i < len
            invariant
                i <= len,
                offset + len <= self@.len() <= usize::MAX,
                self@.len() == old(self)@.len(),
                forall|j: int| offset <= j < offset + i ==> self@[j] == ERASED_BYTE,
                forall|j: int|
                    0 <= j < old(self)@.len() && !(offset <= j < offset + i)
                        ==> self@[j] == old(self)@[j],
            decreases len - i,
        {
            self.data.set(offset + i, ERASED_BYTE);
            i = i + 1;
        }
    }

    /// Programs `data` at `offset`.  The target bytes must be erased, and
    /// the offset and length word-aligned: NOR flash cannot overwrite
    /// already-programmed bytes without a fresh sector erase.
    pub fn program(&mut self, offset: usize, data: &Vec<u8>)
        requires
            offset % WRITE_ALIGN == 0,
            data@.len() as int % WRITE_ALIGN as int == 0,
            offset + data@.len() <= old(self)@.len(),
            forall|i: int|
                offset <= i < offset + data@.len() ==> old(self)@[i] == ERASED_BYTE,
        ensures
            final(self)@.len() == old(self)@.len(),
            forall|i: int|
                0 <= i < data@.len() ==> final(self)@[offset + i] == data@[i],
            forall|i: int|
                0 <= i < old(self)@.len() && !(offset <= i < offset + data@.len())
                    ==> final(self)@[i] == old(self)@[i],
    {
        let _len_bound = self.data.len();
        let len = data.len();
        let mut i: usize = 0;
        while i < len
            invariant
                i <= len,
                len == data@.len(),
                offset + len <= self@.len() <= usize::MAX,
                self@.len() == old(self)@.len(),
                forall|j: int| 0 <= j < i ==> self@[offset + j] == data@[j],
                forall|j: int|
                    0 <= j < old(self)@.len() && !(offset <= j < offset + i)
                        ==> self@[j] == old(self)@[j],
            decreases len - i,
        {
            self.data.set(offset + i, data[i]);
            i = i + 1;
        }
    }
}

} // verus!
