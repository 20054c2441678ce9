//! Handing data that Parsec returned (a signature, a public key) back to the
//! caller's output buffer.
use vstd::prelude::*;

verus! {

/// Copies the data to the front of the output buffer and returns the number
/// of bytes written, which the driver reports as the output's length. The rest
/// of the buffer is left as it was.
pub fn write_output(dest: &mut [u8], data: &[u8]) -> (written: usize)
    requires
        data@.len() <= old(dest)@.len(),
    ensures
        written == data@.len(),
        final(dest)@.len() == old(dest)@.len(),
        final(dest)@.subrange(0, written as int) == data@,
        final(dest)@.subrange(written as int, final(dest)@.len() as int) == old(dest)@.subrange(
            written as int,
            old(dest)@.len() as int,
        ),
{
    let n = data.len();
    let mut i: usize = 0;
    while i < n
        invariant
            n == data@.len(),
            n <= dest@.len(),
            dest@.len() == old(dest)@.len(),
            i <= n,
            forall|j: int| 0 <= j < i ==> dest@[j] == data@[j],
            forall|j: int| i <= j < dest@.len() ==> dest@[j] == old(dest)@[j],
        decreases n - i,
    {
        dest[i] = data[i];
        i += 1;
    }
    assert(dest@.subrange(0, n as int) =~= data@);
    assert(dest@.subrange(n as int, dest@.len() as int) =~= old(dest)@.subrange(
        n as int,
        old(dest)@.len() as int,
    ));
    n
}

} // verus!
