use vstd::prelude::*;

use crate::errors::MemoryBoundsError;
use crate::guard;
use crate::guard::access_allowed;

verus! {

/// Size in bytes of one page of guest linear memory.
pub const PAGE_SIZE: u32 = 65536;

/// The guest's linear memory for one module instance: `pages` pages of
/// `PAGE_SIZE` bytes each. The fields are private, so the only way to touch
/// the bytes is through the checked accessors below: every read and write
/// consults the page-granularity bounds guard first.
pub struct GuestMemory {
    pages: u32,
    bytes: Vec<u8>,
}

impl View for GuestMemory {
    type V = Seq<u8>;

    closed spec fn view(&self) -> Seq<u8> {
        self.bytes@
    }
}

impl GuestMemory {
    /// Current memory size in pages.
    pub closed spec fn spec_pages(&self) -> u32 {
        self.pages
    }

    /// The byte count matches the page count, and the whole memory stays
    /// addressable through 32-bit pointers.
    pub open spec fn wf(&self) -> bool {
        &&& self@.len() == self.spec_pages() * PAGE_SIZE
        &&& self.spec_pages() * PAGE_SIZE <= u32::MAX
    }

    /// A fresh, zeroed linear memory of `pages` pages.
    pub fn new(pages: u32) -> (r: GuestMemory)
        requires
            pages * PAGE_SIZE <= u32::MAX,
        ensures
            r.wf(),
            r.spec_pages() == pages,
            r@.len() == pages * PAGE_SIZE,
            forall|i: int| 0 <= i < r@.len() ==> r@[i] == 0u8,
    {
        let total: usize = (pages as usize) * (PAGE_SIZE as usize);
        let mut bytes: Vec<u8> = Vec::new();
        let mut i: usize = 0;
        while i < total
            invariant
                i <= total,
                bytes@.len() == i,
                forall|j: int| 0 <= j < i ==> bytes@[j] == 0u8,
            decreases total - i,
        {
            bytes.push(0u8);
            i = i + 1;
        }
        GuestMemory { pages, bytes }
    }

    /// Reads the memory size in pages.
    pub fn size_in_pages(&self) -> (r: u32)
        ensures
            r == self.spec_pages(),
    {
        self.pages
    }

    /// An allowed access never runs past the underlying bytes: the byte
    /// count is a whole number of pages, so ending within the last allowed
    /// page means ending within the bytes.
    pub proof fn lemma_allowed_in_range(&self, ptr: u32, len: u32)
        requires
            self.wf(),
            access_allowed(ptr, len, self.spec_pages(), PAGE_SIZE),
        ensures
            ptr + len <= self@.len(),
    {
        guard::lemma_ceil_div_le(
            guard::saturated_end(ptr, len),
            PAGE_SIZE as int,
            self.spec_pages() as int,
        );
    }

    /// Copies `len` bytes starting at `ptr` out of the memory, after
    /// checking the access against the bounds guard.
    pub fn read_slice(&self, ptr: u32, len: u32) -> (r: Result<Vec<u8>, MemoryBoundsError>)
        requires
            self.wf(),
        ensures
            r is Ok <==> access_allowed(ptr, len, self.spec_pages(), PAGE_SIZE),
            (r matches Ok(v) ==> v@ == self@.subrange(ptr as int, ptr + len)),
            r is Err ==> r == Err::<Vec<u8>, MemoryBoundsError>(MemoryBoundsError),
    {
        guard::check(ptr, len, self.pages, PAGE_SIZE)?;
        proof {
            self.lemma_allowed_in_range(ptr, len);
        }
        let mut out: Vec<u8> = Vec::new();
        let mut i: u32 = 0;
        while i < len
            invariant
                self.wf(),
                i <= len,
                ptr + len <= self@.len(),
                out@.len() == i,
                forall|j: int| 0 <= j < i ==> out@[j] == self@[ptr + j],
            decreases len - i,
        {
            out.push(self.bytes[(ptr + i) as usize]);
            i = i + 1;
        }
        proof {
            assert(out@ =~= self@.subrange(ptr as int, ptr + len));
        }
        Ok(out)
    }

    /// Writes `src` into memory starting at `ptr`, after checking the
    /// access against the bounds guard. On failure the memory is untouched.
    pub fn write_slice(&mut self, ptr: u32, src: &[u8]) -> (r: Result<(), MemoryBoundsError>)
        requires
            old(self).wf(),
            src@.len() <= u32::MAX,
        ensures
            final(self).wf(),
            final(self).spec_pages() == old(self).spec_pages(),
            final(self)@.len() == old(self)@.len(),
            r is Ok <==> access_allowed(
                ptr,
                src@.len() as u32,
                old(self).spec_pages(),
                PAGE_SIZE,
            ),
            r is Ok ==> forall|j: int|
                0 <= j < old(self)@.len() ==> final(self)@[j] == (if ptr <= j < ptr + src@.len() {
                    src@[j - ptr]
                } else {
                    old(self)@[j]
                }),
            r is Err ==> final(self)@ == old(self)@ && r == Err::<(), MemoryBoundsError>(
                MemoryBoundsError,
            ),
    {
        let len: u32 = src.len() as u32;
        guard::check(ptr, len, self.pages, PAGE_SIZE)?;
        proof {
            self.lemma_allowed_in_range(ptr, len);
        }
        let ghost start_mem: Seq<u8> = self@;
        let mut j: u32 = 0;
        while j < len
            invariant
                j <= len,
                len == src@.len(),
                ptr + len <= start_mem.len(),
                self.spec_pages() == old(self).spec_pages(),
                self.wf(),
                self@.len() == start_mem.len(),
                forall|k: int|
                    0 <= k < start_mem.len() ==> self@[k] == (if ptr <= k < ptr + j {
                        src@[k - ptr]
                    } else {
                        start_mem[k]
                    }),
            decreases len - j,
        {
            self.bytes[(ptr + j) as usize] = src[j as usize];
            j = j + 1;
        }
        Ok(())
    }

    /// The little-endian byte image of a 32-bit value.
    pub open spec fn u32_le_bytes(x: u32) -> Seq<u8> {
        seq![
            (x % 256) as u8,
            ((x / 256) % 256) as u8,
            ((x / 65536) % 256) as u8,
            ((x / 16777216) % 256) as u8,
        ]
    }

    /// Writes the little-endian image of `x` at `ptr`, after checking the
    /// four-byte access against the bounds guard.
    pub fn write_u32(&mut self, ptr: u32, x: u32) -> (r: Result<(), MemoryBoundsError>)
        requires
            old(self).wf(),
        ensures
            final(self).wf(),
            final(self).spec_pages() == old(self).spec_pages(),
            final(self)@.len() == old(self)@.len(),
            r is Ok <==> access_allowed(ptr, 4, old(self).spec_pages(), PAGE_SIZE),
            r is Ok ==> forall|j: int|
                0 <= j < old(self)@.len() ==> final(self)@[j] == (if ptr <= j < ptr + 4 {
                    Self::u32_le_bytes(x)[j - ptr]
                } else {
                    old(self)@[j]
                }),
            r is Err ==> final(self)@ == old(self)@ && r == Err::<(), MemoryBoundsError>(
                MemoryBoundsError,
            ),
    {
        let mut buf: Vec<u8> = Vec::new();
        buf.push((x % 256) as u8);
        buf.push(((x / 256) % 256) as u8);
        buf.push(((x / 65536) % 256) as u8);
        buf.push(((x / 16777216) % 256) as u8);
        proof {
            assert(buf@ =~= Self::u32_le_bytes(x));
        }
        self.write_slice(ptr, buf.as_slice())
    }
}

} // verus!
