//! Flash-backed store for the configuration record.
//!
//! The record lives at offset zero of the reserved partition.  `load`
//! reads a fixed-size window and treats blank flash (every byte erased or
//! zero) and bytes that fail to decode the same way: no stored record.
//! `write` serializes, pads the length up to the word alignment, erases
//! the covering sectors, and only then programs — the flash model refuses
//! a program over bytes that were not erased first.
use vstd::prelude::*;

use crate::codec::{
    spec_decode, spec_encode, encode_config, decode_config, ENCODED_MAX_LEN,
};
use crate::config::{CapyConfig, ConfigModel};
use crate::flash::{FlashMem, ERASED_BYTE, SECTOR_SIZE, WRITE_ALIGN};

verus! {

/// Size of the byte window that holds one stored record.
pub const CONFIG_WINDOW_LEN: usize = 96;

/// Blank flash: every byte is either still erased or zero.
pub open spec fn spec_blank(b: Seq<u8>) -> bool {
    forall|i: int| 0 <= i < b.len() ==> b[i] == ERASED_BYTE || b[i] == 0u8
}

/// What a window of flash holds: nothing when blank, otherwise whatever
/// the bytes decode to — decode failure is also nothing, never an error.
pub open spec fn spec_load(w: Seq<u8>) -> Option<ConfigModel> {
    if spec_blank(w) {
        None
    } else {
        spec_decode(w)
    }
}

/// `n` rounded up to the write alignment.
pub open spec fn spec_aligned_len(n: int) -> int {
    if n % (WRITE_ALIGN as int) == 0 {
        n
    } else {
        n + (WRITE_ALIGN as int - n % (WRITE_ALIGN as int))
    }
}

/// The first sector of flash after a record is stored: the encoding,
/// zero padding up to the write alignment, then erased bytes.
pub open spec fn spec_written(m: ConfigModel) -> Seq<u8> {
    let e = spec_encode(m);
    let a = spec_aligned_len(e.len() as int);
    e + Seq::new((a - e.len()) as nat, |i: int| 0u8)
        + Seq::new((SECTOR_SIZE - a) as nat, |i: int| ERASED_BYTE)
}

/// True when every byte of the window is erased or zero.
fn is_blank(w: &Vec<u8>) -> (r: bool)
    ensures
        r == spec_blank(w@),
{
    let mut i: usize = 0;
    while i < w.len()
        invariant
            i <= w@.len(),
            forall|j: int| 0 <= j < i ==> w@[j] == ERASED_BYTE || w@[j] == 0u8,
        decreases w@.len() - i,
    {
        if w[i] != ERASED_BYTE && w[i] != 0 {
            return false;
        }
        i = i + 1;
    }
    true
}

impl CapyConfig {
    /// Reads the stored record, if any.  Blank flash and bytes that fail
    /// to decode both yield `None`; neither is an error.
    pub fn load(flash: &FlashMem) -> (r: Option<CapyConfig>)
        requires
            flash@.len() >= CONFIG_WINDOW_LEN,
        ensures
            match r {
                Some(c) => {
                    &&& spec_load(flash@.subrange(0, CONFIG_WINDOW_LEN as int)) == Some(c@)
                    &&& c.wf()
                },
                None => spec_load(flash@.subrange(0, CONFIG_WINDOW_LEN as int)) is None,
            },
    {
        let window = flash.read(0, CONFIG_WINDOW_LEN);
        if is_blank(&window) {
            return None;
        }
        decode_config(&window)
    }

    /// Stores the record: serialize, pad to the write alignment, erase
    /// the covering sectors, then program.  The erase is not optional —
    /// programming non-erased NOR flash is refused by the flash model —
    /// and it always covers at least the programmed bytes.
    pub fn write(&self, flash: &mut FlashMem)
        requires
            self.wf(),
            old(flash)@.len() >= SECTOR_SIZE,
        ensures
            final(flash)@.len() == old(flash)@.len(),
            final(flash)@.subrange(0, SECTOR_SIZE as int) == spec_written(self@),
            forall|i: int|
                SECTOR_SIZE <= i < old(flash)@.len()
                    ==> final(flash)@[i] == old(flash)@[i],
    {
        let mut buf = encode_config(self);
        let ser_len = buf.len();
        let rem = ser_len % WRITE_ALIGN;
        let pad = if rem == 0 { 0 } else { WRITE_ALIGN - rem };
        let mut k: usize = 0;
        while k < pad
            invariant
                k <= pad,
                pad < WRITE_ALIGN,
                buf@ == spec_encode(self@) + Seq::new(k as nat, |i: int| 0u8),
            decreases pad - k,
        {
            buf.push(0);
            assert(buf@ =~= spec_encode(self@) + Seq::new((k + 1) as nat, |i: int| 0u8));
            k = k + 1;
        }
        let aligned_len = ser_len + pad;
        assert(aligned_len as int == spec_aligned_len(spec_encode(self@).len() as int));
        let erase_len = ((aligned_len + (SECTOR_SIZE - 1)) / SECTOR_SIZE) * SECTOR_SIZE;
        assert(erase_len == SECTOR_SIZE);
        flash.erase(0, erase_len);
        flash.program(0, &buf);
        assert(final(flash)@.subrange(0, SECTOR_SIZE as int) =~= spec_written(self@));
    }

    /// Erases the record's sectors, leaving them blank so that the next
    /// `load` yields `None`.
    pub fn erase(&self, flash: &mut FlashMem)
        requires
            self.wf(),
            old(flash)@.len() >= SECTOR_SIZE,
        ensures
            final(flash)@.len() == old(flash)@.len(),
            forall|i: int| 0 <= i < SECTOR_SIZE ==> final(flash)@[i] == ERASED_BYTE,
            forall|i: int|
                SECTOR_SIZE <= i < old(flash)@.len()
                    ==> final(flash)@[i] == old(flash)@[i],
    {
        let buf = encode_config(self);
        let ser_len = buf.len();
        let rem = ser_len % WRITE_ALIGN;
        let pad = if rem == 0 { 0 } else { WRITE_ALIGN - rem };
        let aligned_len = ser_len + pad;
        let erase_len = ((aligned_len + (SECTOR_SIZE - 1)) / SECTOR_SIZE) * SECTOR_SIZE;
        assert(erase_len == SECTOR_SIZE);
        flash.erase(0, erase_len);
    }
}

/// The erase behind a store covers at least the bytes it programs,
/// rounded up to the sector size: after a store, every byte of the
/// covering sector past the aligned record is the erased value.
pub proof fn lemma_erase_covers_write(m: ConfigModel)
    requires
        m.wf(),
    ensures
        spec_written(m).len() == SECTOR_SIZE,
        spec_aligned_len(spec_encode(m).len() as int) <= SECTOR_SIZE,
        forall|i: int|
            spec_aligned_len(spec_encode(m).len() as int) <= i < SECTOR_SIZE
                ==> spec_written(m)[i] == ERASED_BYTE,
{
    let e = spec_encode(m);
    let a = spec_aligned_len(e.len() as int);
    assert(e.len() <= ENCODED_MAX_LEN);
    assert forall|i: int| a <= i < SECTOR_SIZE implies spec_written(m)[i] == ERASED_BYTE by {
        assert(spec_written(m)[i] == Seq::new((SECTOR_SIZE - a) as nat, |j: int| ERASED_BYTE)[
            i - a
        ]);
    }
}

/// Blank flash never reads back as a record, not even a default-valued one.
pub proof fn lemma_blank_load(w: Seq<u8>)
    requires
        spec_blank(w),
    ensures
        spec_load(w) is None,
{
}

/// Storing a record and loading it back yields an equal record, for any
/// record within the field capacities that has at least one non-empty
/// field.  (A record whose fields are all empty encodes as zero bytes
/// only, which `load` cannot tell apart from blank flash.)
pub proof fn lemma_store_then_load(m: ConfigModel)
    requires
        m.wf(),
        !m.is_empty(),
    ensures
        spec_load(spec_written(m).subrange(0, CONFIG_WINDOW_LEN as int)) == Some(m),
{
    let e = spec_encode(m);
    let w = spec_written(m).subrange(0, CONFIG_WINDOW_LEN as int);
    assert(e.len() <= ENCODED_MAX_LEN);
    assert(w.len() == CONFIG_WINDOW_LEN);
    let tail = w.subrange(e.len() as int, w.len() as int);
    assert(w =~= e + tail);
    crate::codec::lemma_decode_encode(m, tail);
    let g = m.github.len() as int;
    if m.github.len() > 0 {
        assert(w[0] == g as u8);
        assert(!(w[0] == ERASED_BYTE || w[0] == 0u8));
    } else if m.ssid.len() > 0 {
        assert(w[1] == m.ssid.len() as u8);
        assert(!(w[1] == ERASED_BYTE || w[1] == 0u8));
    } else {
        assert(w[2] == m.password.len() as u8);
        assert(!(w[2] == ERASED_BYTE || w[2] == 0u8));
    }
    assert(!spec_blank(w));
}

} // verus!
