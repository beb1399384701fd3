//! Keyboard chunks: batches of bytes read from standard input in one read
//! call, and the exit byte that ends a session.

use vstd::prelude::*;

verus! {

/// The byte value that ends the session when it appears anywhere in a
/// keyboard chunk (ASCII Group Separator, typed as Ctrl + ]).
pub const EXIT_BYTE: u8 = 29;

/// True when the chunk holds the exit byte at some position.
pub open spec fn contains_exit(b: Seq<u8>) -> bool {
    exists|i: int| 0 <= i < b.len() && b[i] == EXIT_BYTE
}

/// Scans a keyboard chunk for the exit byte.
pub fn chunk_has_exit(b: &Vec<u8>) -> (r: bool)
    ensures
        r == contains_exit(b@),
{
    let mut i: usize = 0;
    while i < b.len()
        invariant
            i <= b@.len(),
            forall|j: int| 0 <= j < i ==> b@[j] != EXIT_BYTE,
        decreases b@.len() - i,
    {
        if b[i] == EXIT_BYTE {
            return true;
        }
        i += 1;
    }
    false
}

/// Builds the chunk that one read of `n` bytes into `buf` produced: a copy of
/// exactly the first `n` bytes, in order.
pub fn chunk_of_read(buf: &[u8], n: usize) -> (c: Vec<u8>)
    requires
        n <= buf@.len(),
    ensures
        c@ == buf@.take(n as int),
{
    let mut c: Vec<u8> = Vec::new();
    let mut i: usize = 0;
    while i < n
        invariant
            i <= n,
            n <= buf@.len(),
            c@ == buf@.take(i as int),
        decreases n - i,
    {
        let byte = buf[i];
        c.push(byte);
        i += 1;
        proof {
            assert(c@ =~= buf@.take(i as int));
        }
    }
    c
}

} // verus!
