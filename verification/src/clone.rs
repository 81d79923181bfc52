//! Snapshot-and-restore of RAM regions.
//!
//! A `CloneContext` copies regions of a byte-addressed RAM into its own
//! arena and remembers where each came from, so that all of them can be
//! written back later in the order they were taken.

use vstd::prelude::*;

use crate::memory::umemcpy;

verus! {

/// Where one snapshot came from and where its copy lives.
#[derive(Copy, Clone, PartialEq, Eq, Structural, Debug)]
pub struct CloneHeader {
    /// Offset of the region in the RAM it was taken from.
    pub original: usize,
    /// Length of the region in bytes.
    pub size: usize,
    /// Offset of the copy within the arena.
    pub clone: usize,
}

/// A snapshot arena: copied bytes plus one header per snapshot.
pub struct CloneContext {
    /// The copied bytes, snapshots back to back.
    pub cloned: Vec<u8>,
    /// Bytes of the arena in use; always the arena's length.
    pub cloned_offset: usize,
    /// One header per snapshot, in the order they were taken.
    pub headers: Vec<CloneHeader>,
    /// Headers in use; always the header list's length.
    pub headers_offset: usize,
}

/// RAM contents after writing one snapshot back to its origin.
pub open spec fn restore_one(ram: Seq<u8>, h: CloneHeader, arena: Seq<u8>) -> Seq<u8> {
    ram.take(h.original as int) + arena.subrange(h.clone as int, h.clone + h.size) + ram.skip(
        h.original + h.size,
    )
}

/// RAM contents after writing the first `n` snapshots back in order.
pub open spec fn restore_upto(ram: Seq<u8>, headers: Seq<CloneHeader>, arena: Seq<u8>, n: int) -> Seq<u8>
    decreases n,
{
    if n <= 0 {
        ram
    } else {
        restore_one(restore_upto(ram, headers, arena, n - 1), headers[n - 1], arena)
    }
}

impl CloneContext {
    /// Every header points at a region inside the arena, and the in-use
    /// counters match the lengths.
    pub open spec fn wf(self) -> bool {
        &&& self.cloned_offset == self.cloned@.len()
        &&& self.headers_offset == self.headers@.len()
        &&& forall|i: int|
            0 <= i < self.headers@.len() ==> (#[trigger] self.headers@[i]).clone + self.headers@[i].size
                <= self.cloned@.len()
    }

    /// All recorded origins fit inside a RAM of the given length.
    pub open spec fn origins_fit(self, ram_len: nat) -> bool {
        forall|i: int|
            0 <= i < self.headers@.len() ==> (#[trigger] self.headers@[i]).original
                + self.headers@[i].size <= ram_len
    }

    /// An empty snapshot arena.
    pub fn new() -> (r: Self)
        ensures
            r.wf(),
            r.headers@.len() == 0,
            r.cloned@.len() == 0,
    {
        Self { cloned: Vec::new(), cloned_offset: 0, headers: Vec::new(), headers_offset: 0 }
    }

    /// Forgets every snapshot taken so far.
    pub fn reset(&mut self)
        ensures
            final(self).wf(),
            final(self).headers@.len() == 0,
            final(self).cloned@.len() == 0,
    {
        self.headers_offset = 0;
        self.cloned_offset = 0;
        self.headers = Vec::new();
        self.cloned = Vec::new();
    }

    /// Takes a snapshot of `ram[src .. src + size]` and records where it
    /// came from.
    pub fn clone(&mut self, ram: &Vec<u8>, src: usize, size: usize)
        requires
            old(self).wf(),
            src + size <= ram@.len(),
            old(self).cloned@.len() + size <= usize::MAX,
        ensures
            final(self).wf(),
            final(self).headers@ == old(self).headers@.push(
                CloneHeader { original: src, size, clone: old(self).cloned@.len() as usize },
            ),
            final(self).cloned@ == old(self).cloned@ + ram@.subrange(src as int, src + size),
    {
        let ram_len = ram.len();
        let header = CloneHeader { original: src, size, clone: self.cloned_offset };
        self.headers.push(header);
        self.headers_offset = self.headers.len();
        let mut i: usize = 0;
        while i < size
            invariant
                i <= size,
                ram@.len() == ram_len,
                self.cloned@ == old(self).cloned@ + ram@.subrange(src as int, src + i),
                self.headers@ == old(self).headers@.push(
                    CloneHeader { original: src, size, clone: old(self).cloned@.len() as usize },
                ),
                self.headers_offset == self.headers@.len(),
                self.cloned_offset == old(self).cloned@.len(),
            decreases size - i,
        {
            let b = ram[src + i];
            self.cloned.push(b);
            proof {
                assert(self.cloned@ =~= old(self).cloned@ + ram@.subrange(src as int, src + i + 1));
            }
            i = i + 1;
        }
        self.cloned_offset = self.cloned.len();
        proof {
            assert(self.cloned@ =~= old(self).cloned@ + ram@.subrange(src as int, src + size));
        }
    }

    /// Writes snapshot `i` back to its origin in `ram`.
    pub fn restore(&self, i: usize, ram: &mut Vec<u8>)
        requires
            self.wf(),
            i < self.headers@.len(),
            self.headers@[i as int].original + self.headers@[i as int].size <= old(ram)@.len(),
        ensures
            final(ram)@ == restore_one(old(ram)@, self.headers@[i as int], self.cloned@),
    {
        let header = self.headers[i];
        umemcpy(ram, header.original, &self.cloned, header.clone, header.size);
    }

    /// Writes every snapshot back to its origin, in the order the
    /// snapshots were taken.
    pub fn restore_all(&mut self, ram: &mut Vec<u8>)
        requires
            old(self).wf(),
            old(self).origins_fit(old(ram)@.len()),
        ensures
            *final(self) == *old(self),
            final(ram)@ == restore_upto(
                old(ram)@,
                old(self).headers@,
                old(self).cloned@,
                old(self).headers@.len() as int,
            ),
    {
        let mut i: usize = 0;
        while i < self.headers_offset
            invariant
                i <= self.headers@.len(),
                *self == *old(self),
                ram@.len() == old(ram)@.len(),
                ram@ == restore_upto(old(ram)@, self.headers@, self.cloned@, i as int),
            decreases self.headers@.len() - i,
        {
            self.restore(i, ram);
            i = i + 1;
        }
    }
}

} // verus!
