//! The guest memory arena: a flat byte space with an allocation table, the
//! sole capability through which kernel services touch guest memory. Raw
//! reads and writes are bounds-checked; terminated strings are read and
//! written byte-wise, as the wire convention demands.

use vstd::prelude::*;

use crate::base::{WIPICErrorKind, WIPICMemoryId, WIPICWord};

verus! {

/// One entry of the allocation table.
#[derive(Clone, Copy, PartialEq, Eq, Structural, Debug)]
pub struct Allocation {
    /// First guest address of the buffer.
    pub addr: WIPICWord,
    /// Length of the buffer in bytes.
    pub size: WIPICWord,
    /// Whether the buffer is still allocated.
    pub live: bool,
}

/// The guest memory arena: a flat byte space, a bump pointer, and the
/// allocation table indexed by memory handles.
pub struct Arena {
    /// The guest-visible byte space.
    pub mem: Vec<u8>,
    /// All allocations ever made, indexed by handle value.
    pub allocs: Vec<Allocation>,
    /// First address not yet handed out.
    pub next: WIPICWord,
}

/// Whether `[addr, addr + len)` lies inside a byte space of length
/// `mem.len()`.
pub open spec fn valid_range(mem: Seq<u8>, addr: int, len: int) -> bool {
    addr + len <= mem.len()
}

/// The byte space with `data` written at `addr` and all else unchanged.
pub open spec fn splice(mem: Seq<u8>, addr: int, data: Seq<u8>) -> Seq<u8> {
    mem.subrange(0, addr) + data + mem.subrange(addr + data.len(), mem.len() as int)
}

/// Whether some byte at or after `addr` is a terminator.
pub open spec fn has_nul(mem: Seq<u8>, addr: int) -> bool {
    exists|i: int| addr <= i < mem.len() && mem[i] == 0
}

/// The bytes of the terminated string starting at `addr`: everything up to
/// but not including the first zero byte.
pub open spec fn str_at(mem: Seq<u8>, addr: int) -> Seq<u8>
    decreases mem.len() - addr,
{
    if addr < 0 || addr >= mem.len() || mem[addr] == 0 {
        Seq::empty()
    } else {
        seq![mem[addr]] + str_at(mem, addr + 1)
    }
}

/// The terminated string before the first zero byte is exactly the byte
/// range from its start to that zero.
pub proof fn lemma_str_at_terminated(mem: Seq<u8>, addr: int, end: int)
    requires
        0 <= addr <= end < mem.len(),
        mem[end] == 0,
        forall|j: int| addr <= j < end ==> mem[j] != 0,
    ensures
        str_at(mem, addr) == mem.subrange(addr, end),
    decreases end - addr,
{
    if addr == end {
        assert(str_at(mem, addr) =~= mem.subrange(addr, end));
    } else {
        lemma_str_at_terminated(mem, addr + 1, end);
        assert(str_at(mem, addr) =~= mem.subrange(addr, end));
    }
}

impl Arena {
    /// Structural invariant: addresses fit in a word, the bump pointer is in
    /// bounds, and every allocation lies below the bump pointer.
    pub open spec fn wf(self) -> bool {
        &&& self.mem@.len() <= u32::MAX
        &&& self.next <= self.mem@.len()
        &&& forall|i: int|
            0 <= i < self.allocs@.len() ==> (#[trigger] self.allocs@[i]).addr
                + self.allocs@[i].size <= self.next
    }

    /// Whether a handle denotes a live allocation.
    pub open spec fn valid_handle(self, id: WIPICMemoryId) -> bool {
        id.0 < self.allocs@.len() && self.allocs@[id.0 as int].live
    }

    /// The first guest address of the allocation a handle denotes.
    pub open spec fn handle_addr(self, id: WIPICMemoryId) -> WIPICWord {
        self.allocs@[id.0 as int].addr
    }

    /// The byte length of the allocation a handle denotes.
    pub open spec fn handle_size(self, id: WIPICMemoryId) -> WIPICWord {
        self.allocs@[id.0 as int].size
    }

    /// Whether an allocation of `size` more bytes can be satisfied.
    pub open spec fn can_alloc(self, size: WIPICWord) -> bool {
        self.next + size <= self.mem@.len() && self.allocs@.len() < u32::MAX
    }

    /// Creates an arena whose byte space is `size` zero bytes.
    pub fn with_size(size: WIPICWord) -> (r: Arena)
        ensures
            r.wf(),
            r.mem@.len() == size,
            r.mem@ == Seq::new(size as nat, |i: int| 0u8),
            r.allocs@.len() == 0,
            r.next == 0,
    {
        let mut mem: Vec<u8> = Vec::new();
        let mut i: u32 = 0;
        while i < size
            invariant
                i <= size,
                mem@ == Seq::new(i as nat, |j: int| 0u8),
            decreases size - i,
        {
            mem.push(0);
            assert(mem@ =~= Seq::new((i + 1) as nat, |j: int| 0u8));
            i = i + 1;
        }
        Arena { mem, allocs: Vec::new(), next: 0 }
    }

    /// Allocates `size` bytes and returns a fresh live handle, or reports
    /// memory exhaustion; succeeds exactly when the request fits.
    pub fn allocate(&mut self, size: WIPICWord) -> (r: Result<WIPICMemoryId, WIPICErrorKind>)
        requires
            old(self).wf(),
        ensures
            final(self).wf(),
            final(self).mem@ == old(self).mem@,
            r is Ok <==> old(self).can_alloc(size),
            match r {
                Ok(id) => {
                    &&& id.0 == old(self).allocs@.len()
                    &&& final(self).allocs@ == old(self).allocs@.push(
                        Allocation { addr: old(self).next, size, live: true },
                    )
                    &&& final(self).next == old(self).next + size
                    &&& final(self).valid_handle(id)
                    &&& final(self).handle_addr(id) == old(self).next
                    &&& final(self).handle_size(id) == size
                },
                Err(k) => {
                    &&& k == WIPICErrorKind::OutOfMemory
                    &&& *final(self) == *old(self)
                },
            },
    {
        let fits = (self.next as u64) + (size as u64) <= (self.mem.len() as u64);
        if fits && self.allocs.len() < u32::MAX as usize {
            let id = WIPICMemoryId(self.allocs.len() as u32);
            self.allocs.push(Allocation { addr: self.next, size, live: true });
            self.next = self.next + size;
            Ok(id)
        } else {
            Err(WIPICErrorKind::OutOfMemory)
        }
    }

    /// Releases a live handle; succeeds exactly when the handle is live, and
    /// leaves the byte space untouched.
    pub fn free(&mut self, id: WIPICMemoryId) -> (r: Result<(), WIPICErrorKind>)
        requires
            old(self).wf(),
        ensures
            final(self).wf(),
            final(self).mem@ == old(self).mem@,
            final(self).next == old(self).next,
            r is Ok <==> old(self).valid_handle(id),
            match r {
                Ok(()) => {
                    &&& final(self).allocs@ == old(self).allocs@.update(
                        id.0 as int,
                        Allocation { live: false, ..old(self).allocs@[id.0 as int] },
                    )
                    &&& !final(self).valid_handle(id)
                },
                Err(k) => {
                    &&& k == WIPICErrorKind::InvalidMemoryId
                    &&& *final(self) == *old(self)
                },
            },
    {
        if (id.0 as usize) < self.allocs.len() {
            let entry = self.allocs[id.0 as usize];
            if entry.live {
                self.allocs.set(id.0 as usize, Allocation { live: false, ..entry });
                return Ok(());
            }
        }
        Err(WIPICErrorKind::InvalidMemoryId)
    }

    /// Resolves a handle to the guest address of its buffer; rejects a
    /// handle that is not live, in particular any released one.
    pub fn data_ptr(&self, id: WIPICMemoryId) -> (r: Result<WIPICWord, WIPICErrorKind>)
        ensures
            r is Ok <==> self.valid_handle(id),
            match r {
                Ok(addr) => addr == self.handle_addr(id),
                Err(k) => k == WIPICErrorKind::InvalidMemoryId,
            },
    {
        if (id.0 as usize) < self.allocs.len() {
            let entry = self.allocs[id.0 as usize];
            if entry.live {
                return Ok(entry.addr);
            }
        }
        Err(WIPICErrorKind::InvalidMemoryId)
    }

    /// Reads `len` raw bytes at an absolute guest address; succeeds exactly
    /// when the range is in bounds.
    pub fn read_bytes(&self, addr: WIPICWord, len: WIPICWord) -> (r: Result<
        Vec<u8>,
        WIPICErrorKind,
    >)
        requires
            self.wf(),
        ensures
            r is Ok <==> valid_range(self.mem@, addr as int, len as int),
            match r {
                Ok(bytes) => bytes@ == self.mem@.subrange(addr as int, addr + len),
                Err(k) => k == WIPICErrorKind::InvalidAddress,
            },
    {
        if (addr as u64) + (len as u64) > self.mem.len() as u64 {
            return Err(WIPICErrorKind::InvalidAddress);
        }
        let mut out: Vec<u8> = Vec::new();
        let mut i: usize = 0;
        while i < len as usize
            invariant
                i <= len,
                addr + len <= self.mem@.len(),
                self.mem@.len() <= u32::MAX,
                out@ == self.mem@.subrange(addr as int, addr + i),
            decreases len - i,
        {
            out.push(self.mem[addr as usize + i]);
            assert(out@ =~= self.mem@.subrange(addr as int, addr + i + 1));
            i = i + 1;
        }
        Ok(out)
    }

    /// Writes raw bytes at an absolute guest address; succeeds exactly when
    /// the range is in bounds, and changes no other byte.
    pub fn write_bytes(&mut self, addr: WIPICWord, data: &[u8]) -> (r: Result<
        (),
        WIPICErrorKind,
    >)
        requires
            old(self).wf(),
        ensures
            final(self).wf(),
            final(self).allocs@ == old(self).allocs@,
            final(self).next == old(self).next,
            r is Ok <==> valid_range(old(self).mem@, addr as int, data@.len() as int),
            match r {
                Ok(()) => final(self).mem@ == splice(old(self).mem@, addr as int, data@),
                Err(k) => {
                    &&& k == WIPICErrorKind::InvalidAddress
                    &&& final(self).mem@ == old(self).mem@
                },
            },
    {
        if (addr as usize) > self.mem.len() || data.len() > self.mem.len() - (addr as usize) {
            return Err(WIPICErrorKind::InvalidAddress);
        }
        let mut i: usize = 0;
        while i < data.len()
            invariant
                i <= data@.len(),
                addr + data@.len() <= self.mem@.len(),
                self.mem@.len() <= u32::MAX,
                self.mem@.len() == old(self).mem@.len(),
                self.allocs == old(self).allocs,
                self.next == old(self).next,
                forall|j: int|
                    0 <= j < self.mem@.len() && !(addr <= j < addr + i) ==> self.mem@[j]
                        == old(self).mem@[j],
                forall|j: int| addr <= j < addr + i ==> self.mem@[j] == data@[j - addr],
            decreases data@.len() - i,
        {
            self.mem.set(addr as usize + i, data[i]);
            i = i + 1;
        }
        assert(self.mem@ =~= splice(old(self).mem@, addr as int, data@));
        Ok(())
    }

    /// Reads the terminated string at a guest address: the bytes before the
    /// first zero at or after it. Fails fatally exactly when no terminator
    /// lies inside the arena bounds.
    pub fn read_null_terminated_string(&self, addr: WIPICWord) -> (r: Result<
        Vec<u8>,
        WIPICErrorKind,
    >)
        requires
            self.wf(),
        ensures
            r is Ok <==> has_nul(self.mem@, addr as int),
            match r {
                Ok(bytes) => bytes@ == str_at(self.mem@, addr as int),
                Err(k) => k == WIPICErrorKind::UnterminatedString,
            },
    {
        if (addr as usize) >= self.mem.len() {
            return Err(WIPICErrorKind::UnterminatedString);
        }
        let mut out: Vec<u8> = Vec::new();
        let mut i: usize = addr as usize;
        assert(out@ =~= self.mem@.subrange(addr as int, addr as int));
        while i < self.mem.len()
            invariant
                self.wf(),
                addr <= i <= self.mem@.len(),
                forall|j: int| addr <= j < i ==> self.mem@[j] != 0,
                out@ == self.mem@.subrange(addr as int, i as int),
            decreases self.mem@.len() - i,
        {
            let b = self.mem[i];
            if b == 0 {
                proof {
                    lemma_str_at_terminated(self.mem@, addr as int, i as int);
                }
                return Ok(out);
            }
            out.push(b);
            assert(out@ =~= self.mem@.subrange(addr as int, i + 1));
            i = i + 1;
        }
        Err(WIPICErrorKind::UnterminatedString)
    }

    /// Writes a string and its terminator at a guest address; succeeds
    /// exactly when the string and the terminator fit, writing nothing
    /// otherwise.
    pub fn write_null_terminated_string(&mut self, addr: WIPICWord, s: &[u8]) -> (r: Result<
        (),
        WIPICErrorKind,
    >)
        requires
            old(self).wf(),
        ensures
            final(self).wf(),
            final(self).allocs@ == old(self).allocs@,
            final(self).next == old(self).next,
            r is Ok <==> valid_range(old(self).mem@, addr as int, s@.len() as int + 1),
            match r {
                Ok(()) => final(self).mem@ == splice(
                    old(self).mem@,
                    addr as int,
                    s@ + seq![0u8],
                ),
                Err(k) => {
                    &&& k == WIPICErrorKind::InvalidAddress
                    &&& final(self).mem@ == old(self).mem@
                },
            },
    {
        if (addr as usize) >= self.mem.len() || s.len() > self.mem.len() - (addr as usize) - 1 {
            return Err(WIPICErrorKind::InvalidAddress);
        }
        let ok = self.write_bytes(addr, s);
        assert(ok is Ok);
        let end = addr as usize + s.len();
        self.mem.set(end, 0);
        assert(self.mem@ =~= splice(old(self).mem@, addr as int, s@ + seq![0u8]));
        Ok(())
    }
}

/// Once a live handle is released, it no longer denotes a live allocation,
/// so every later access through it is rejected: `data_ptr` and `free`
/// succeed exactly on live handles.
pub proof fn lemma_released_handle_rejected(pre: Arena, post: Arena, id: WIPICMemoryId)
    requires
        pre.valid_handle(id),
        post.allocs@ == pre.allocs@.update(
            id.0 as int,
            Allocation { live: false, ..pre.allocs@[id.0 as int] },
        ),
    ensures
        !post.valid_handle(id),
{
}

} // verus!
