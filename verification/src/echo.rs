use vstd::prelude::*;

verus! {

/// The per-chunk work of the echo service: the first `n` bytes read into
/// `buf` are returned exactly, in order, so that writing them back sends
/// the peer's bytes verbatim.
pub fn echo_chunk(buf: &[u8], n: usize) -> (out: Vec<u8>)
    requires
        n <= buf.len(),
    ensures
        out@ == buf@.subrange(0, n as int),
{
    let mut out: Vec<u8> = Vec::new();
    let mut i: usize = 0;
    while i < n
        invariant
            i <= n,
            n <= buf.len(),
            out@ == buf@.subrange(0, i as int),
        decreases n - i,
    {
        out.push(buf[i]);
        proof {
            assert(buf@.subrange(0, (i + 1) as int) =~= buf@.subrange(0, i as int).push(
                buf@[i as int],
            ));
        }
        i = i + 1;
    }
    out
}

} // verus!
