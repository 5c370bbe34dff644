//! Raw memory primitives: byte-level set, compare, copy and move.
//!
//! The freestanding environment has no runtime support for bulk memory
//! operations, so the kernel carries its own. Here they are stated and proved
//! over byte buffers; the overlap-aware `memmove` works inside a single
//! buffer, which is the only way two regions can overlap.

use vstd::prelude::*;

verus! {

/// True when `a` and `b` agree on every index below `n`.
pub open spec fn bytes_eq_upto(a: Seq<u8>, b: Seq<u8>, n: int) -> bool {
    forall|i: int| 0 <= i < n ==> a[i] == b[i]
}

/// Sets the first `count` bytes of `dest` to `value`; the rest is untouched.
pub fn memset(dest: &mut Vec<u8>, value: u8, count: usize)
    requires
        count <= old(dest).len(),
    ensures
        final(dest).len() == old(dest).len(),
        forall|i: int| 0 <= i < count ==> final(dest)[i] == value,
        forall|i: int| count <= i < final(dest).len() ==> final(dest)[i] == old(dest)[i],
{
    let mut i: usize = 0;
    while i < count
        invariant
            i <= count,
            count <= dest.len(),
            dest.len() == old(dest).len(),
            forall|j: int| 0 <= j < i ==> dest[j] == value,
            forall|j: int| i <= j < dest.len() ==> dest[j] == old(dest)[j],
        decreases count - i,
    {
        dest.set(i, value);
        i += 1;
    }
}

/// Compares the first `n` bytes of `s1` and `s2`.
///
/// Returns 0 exactly when they agree on all `n` bytes; otherwise the
/// difference of the first disagreeing pair, in the C library's convention.
pub fn memcmp(s1: &Vec<u8>, s2: &Vec<u8>, n: usize) -> (r: i32)
    requires
        n <= s1.len(),
        n <= s2.len(),
    ensures
        (r == 0) <==> bytes_eq_upto(s1@, s2@, n as int),
        r != 0 ==> exists|j: int|
            0 <= j < n && s1@[j] != s2@[j] && bytes_eq_upto(s1@, s2@, j) && r == s1@[j] - s2@[j],
{
    let mut i: usize = 0;
    while i < n
        invariant
            i <= n,
            n <= s1.len(),
            n <= s2.len(),
            bytes_eq_upto(s1@, s2@, i as int),
        decreases n - i,
    {
        let a = s1[i];
        let b = s2[i];
        if a != b {
            return a as i32 - b as i32;
        }
        i += 1;
    }
    0
}

/// Copies the first `count` bytes of `src` over the start of `dest`.
pub fn memcpy(dest: &mut Vec<u8>, src: &Vec<u8>, count: usize)
    requires
        count <= old(dest).len(),
        count <= src.len(),
    ensures
        final(dest).len() == old(dest).len(),
        forall|i: int| 0 <= i < count ==> final(dest)[i] == src[i],
        forall|i: int| count <= i < final(dest).len() ==> final(dest)[i] == old(dest)[i],
{
    let mut i: usize = 0;
    while i < count
        invariant
            i <= count,
            count <= dest.len(),
            count <= src.len(),
            dest.len() == old(dest).len(),
            forall|j: int| 0 <= j < i ==> dest[j] == src[j],
            forall|j: int| i <= j < dest.len() ==> dest[j] == old(dest)[j],
        decreases count - i,
    {
        dest.set(i, src[i]);
        i += 1;
    }
}

/// Moves `count` bytes within `buf` from `src` to `dest`, overlap allowed:
/// the destination region ends up holding what the source region held before
/// the call, and everything outside the destination region is untouched.
pub fn memmove(buf: &mut Vec<u8>, dest: usize, src: usize, count: usize)
    requires
        dest + count <= old(buf).len(),
        src + count <= old(buf).len(),
    ensures
        final(buf).len() == old(buf).len(),
        forall|i: int| 0 <= i < count ==> #[trigger] final(buf)[dest + i] == old(buf)[src + i],
        forall|i: int|
            0 <= i < final(buf).len() && !(dest <= i < dest + count) ==> final(buf)[i] == old(
                buf,
            )[i],
{
    if dest <= src || dest >= src + count {
        // Forward copy: every write lands strictly below the next byte read.
        let mut i: usize = 0;
        while i < count
            invariant
                i <= count,
                dest + count <= buf.len(),
                src + count <= buf.len(),
                buf.len() == old(buf).len(),
                dest <= src || dest >= src + count,
                forall|j: int| i <= j < count ==> #[trigger] buf[src + j] == old(buf)[src + j],
                forall|j: int| 0 <= j < i ==> #[trigger] buf[dest + j] == old(buf)[src + j],
                forall|j: int|
                    0 <= j < buf.len() && !(dest <= j < dest + i) ==> buf[j] == old(buf)[j],
            decreases count - i,
        {
            let b = buf[src + i];
            buf.set(dest + i, b);
            i += 1;
        }
    } else {
        // Overlapping with dest above src: copy backward so that no source
        // byte is overwritten before it is read.
        let mut i: usize = count;
        while i > 0
            invariant
                i <= count,
                dest + count <= buf.len(),
                src + count <= buf.len(),
                buf.len() == old(buf).len(),
                src < dest < src + count,
                forall|j: int| 0 <= j < i ==> #[trigger] buf[src + j] == old(buf)[src + j],
                forall|j: int| i <= j < count ==> #[trigger] buf[dest + j] == old(buf)[src + j],
                forall|j: int|
                    0 <= j < buf.len() && !(dest + i <= j < dest + count) ==> buf[j] == old(
                        buf,
                    )[j],
            decreases i,
        {
            i -= 1;
            let b = buf[src + i];
            buf.set(dest + i, b);
        }
    }
}

} // verus!
