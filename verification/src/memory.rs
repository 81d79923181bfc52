//! Byte-buffer helpers and a minimal value cell.

use vstd::prelude::*;

verus! {

/// Sets `size` bytes of `dst` starting at `offset` to `value`.
pub fn umemset(dst: &mut Vec<u8>, offset: usize, value: u8, size: usize)
    requires
        offset + size <= old(dst)@.len(),
    ensures
        final(dst)@.len() == old(dst)@.len(),
        forall|k: int| offset <= k < offset + size ==> final(dst)@[k] == value,
        forall|k: int| 0 <= k < offset ==> final(dst)@[k] == old(dst)@[k],
        forall|k: int| offset + size <= k < old(dst)@.len() ==> final(dst)@[k] == old(dst)@[k],
{
    let dst_len = dst.len();
    let mut i: usize = 0;
    while i < size
        invariant
            i <= size,
            dst@.len() == dst_len,
            dst@.len() == old(dst)@.len(),
            forall|k: int| offset <= k < offset + i ==> dst@[k] == value,
            forall|k: int| 0 <= k < offset ==> dst@[k] == old(dst)@[k],
            forall|k: int| offset + i <= k < old(dst)@.len() ==> dst@[k] == old(dst)@[k],
        decreases size - i,
    {
        dst.set(offset + i, value);
        i = i + 1;
    }
}

/// Copies `size` bytes from `src` at `src_offset` into `dst` at
/// `dst_offset`.
pub fn umemcpy(dst: &mut Vec<u8>, dst_offset: usize, src: &Vec<u8>, src_offset: usize, size: usize)
    requires
        dst_offset + size <= old(dst)@.len(),
        src_offset + size <= src@.len(),
    ensures
        final(dst)@.len() == old(dst)@.len(),
        final(dst)@ == old(dst)@.take(dst_offset as int) + src@.subrange(
            src_offset as int,
            src_offset + size,
        ) + old(dst)@.skip(dst_offset + size),
{
    let dst_len = dst.len();
    let src_len = src.len();
    let mut i: usize = 0;
    while i < size
        invariant
            i <= size,
            dst@.len() == dst_len,
            dst@.len() == old(dst)@.len(),
            forall|k: int| 0 <= k < dst_offset ==> dst@[k] == old(dst)@[k],
            forall|k: int|
                dst_offset <= k < dst_offset + i ==> #[trigger] dst@[k] == src@[src_offset + (k
                    - dst_offset)],
            forall|k: int| dst_offset + i <= k < old(dst)@.len() ==> dst@[k] == old(dst)@[k],
        decreases size - i,
    {
        let b = src[src_offset + i];
        dst.set(dst_offset + i, b);
        i = i + 1;
    }
    proof {
        assert(dst@ =~= old(dst)@.take(dst_offset as int) + src@.subrange(
            src_offset as int,
            src_offset + size,
        ) + old(dst)@.skip(dst_offset + size));
    }
}

/// A minimal cell that owns a value and hands out references to it.
#[derive(Copy, Clone)]
pub struct SharedPtrCell<T> {
    pub value: T,
}

impl<T> SharedPtrCell<T> {
    pub fn new(value: T) -> (r: Self)
        ensures
            r.value == value,
    {
        Self { value }
    }

    pub fn as_ref(&self) -> (r: &T)
        ensures
            *r == self.value,
    {
        &self.value
    }
}

} // verus!
