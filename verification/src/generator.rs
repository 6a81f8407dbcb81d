use vstd::prelude::*;

verus! {

/// Relies on rand::random_range over 0..max with the thread-local
/// generator: the draw is uniform and strictly below max. The range must
/// not be empty, or the call panics.
#[verifier::external_body]
fn random_length_below(max: usize) -> (r: usize)
    requires
        max >= 1,
    ensures
        r < max,
{
    rand::random_range(0..max)
}

/// Relies on rand::fill with the thread-local generator: the slice is
/// overwritten with uniformly random bytes; its length does not change.
#[verifier::external_body]
fn fill_random(buf: &mut Vec<u8>)
    ensures
        final(buf)@.len() == old(buf)@.len(),
{
    rand::fill(buf.as_mut_slice());
}

/// Draws one fuzz input: a byte string whose length is uniform in
/// [0, max_input_bytes) and whose contents are uniformly random. Calls are
/// independent; nothing persists between them but the worker-local random
/// source. With a bound of one, the draw is always the empty input.
pub fn generate_input(max_input_bytes: usize) -> (r: Vec<u8>)
    requires
        max_input_bytes >= 1,
    ensures
        r@.len() < max_input_bytes,
{
    let len = random_length_below(max_input_bytes);
    let mut buf: Vec<u8> = Vec::new();
    let mut i: usize = 0;
    while i < len
        invariant
            i <= len,
            buf@.len() == i,
        decreases len - i,
    {
        buf.push(0);
        i += 1;
    }
    fill_random(&mut buf);
    buf
}

} // verus!
