use vstd::prelude::*;

use crate::reference::keccak256_of;
use crate::reference::reference_hash;

verus! {

/// ASCII bytes of the candidate program's absorb entry point signature,
/// "absorb(bytes)".
pub open spec fn absorb_signature() -> Seq<u8> {
    seq![0x61u8, 0x62, 0x73, 0x6f, 0x72, 0x62, 0x28, 0x62, 0x79, 0x74, 0x65, 0x73, 0x29]
}

/// ASCII bytes of the squeeze entry point signature, "squeeze()".
pub open spec fn squeeze_signature() -> Seq<u8> {
    seq![0x73u8, 0x71, 0x75, 0x65, 0x65, 0x7a, 0x65, 0x28, 0x29]
}

/// The 4-byte dispatch selector of an entry point: the first four bytes of
/// the Keccak-256 digest of its signature.
pub open spec fn selector_of(sig: Seq<u8>) -> Seq<u8> {
    keccak256_of(sig).take(4)
}

/// One big-endian byte of a 64-bit value, counted from the most significant.
pub open spec fn be_byte(n: u64, i: int) -> u8
    recommends
        0 <= i < 8,
{
    if i == 0 {
        ((n >> 56) & 0xff) as u8
    } else if i == 1 {
        ((n >> 48) & 0xff) as u8
    } else if i == 2 {
        ((n >> 40) & 0xff) as u8
    } else if i == 3 {
        ((n >> 32) & 0xff) as u8
    } else if i == 4 {
        ((n >> 24) & 0xff) as u8
    } else if i == 5 {
        ((n >> 16) & 0xff) as u8
    } else if i == 6 {
        ((n >> 8) & 0xff) as u8
    } else {
        (n & 0xff) as u8
    }
}

/// A 32-byte big-endian word holding a 64-bit value.
pub open spec fn word_of(n: u64) -> Seq<u8> {
    Seq::new(32, |i: int| if i < 24 { 0u8 } else { be_byte(n, i - 24) })
}

/// The zero bytes that pad a payload of the given length to a multiple of
/// thirty-two.
pub open spec fn pad_of(n: nat) -> Seq<u8> {
    Seq::new(if n % 32 == 0 { 0 } else { (32 - n % 32) as nat }, |i: int| 0u8)
}

/// The encoded call to absorb(bytes): the selector, the offset word (always
/// 32), the length word, the input bytes, and zero padding up to a word
/// boundary.
pub open spec fn absorb_calldata(input: Seq<u8>) -> Seq<u8> {
    selector_of(absorb_signature()) + word_of(32) + word_of(input.len() as u64) + input + pad_of(
        input.len(),
    )
}

/// The encoded call to squeeze(): the bare selector, no arguments.
pub open spec fn squeeze_calldata() -> Seq<u8> {
    selector_of(squeeze_signature())
}

fn selector_for(sig: &Vec<u8>) -> (r: Vec<u8>)
    ensures
        r@ == selector_of(sig@),
        r@.len() == 4,
{
    let mut d = reference_hash(sig);
    d.truncate(4);
    proof {
        assert(d@ =~= selector_of(sig@));
    }
    d
}

fn absorb_signature_bytes() -> (r: Vec<u8>)
    ensures
        r@ == absorb_signature(),
{
    let mut s: Vec<u8> = Vec::new();
    s.push(0x61);
    s.push(0x62);
    s.push(0x73);
    s.push(0x6f);
    s.push(0x72);
    s.push(0x62);
    s.push(0x28);
    s.push(0x62);
    s.push(0x79);
    s.push(0x74);
    s.push(0x65);
    s.push(0x73);
    s.push(0x29);
    proof {
        assert(s@ =~= absorb_signature());
    }
    s
}

fn squeeze_signature_bytes() -> (r: Vec<u8>)
    ensures
        r@ == squeeze_signature(),
{
    let mut s: Vec<u8> = Vec::new();
    s.push(0x73);
    s.push(0x71);
    s.push(0x75);
    s.push(0x65);
    s.push(0x65);
    s.push(0x7a);
    s.push(0x65);
    s.push(0x28);
    s.push(0x29);
    proof {
        assert(s@ =~= squeeze_signature());
    }
    s
}

fn push_word(out: &mut Vec<u8>, n: u64)
    requires
        old(out)@.len() + 32 <= usize::MAX,
    ensures
        final(out)@ == old(out)@ + word_of(n),
{
    let ghost start = out@;
    let mut k: usize = 0;
    while k < 24
        invariant
            k <= 24,
            start.len() + 32 <= usize::MAX,
            out@.len() == start.len() + k,
            out@ =~= start + Seq::new(k as nat, |i: int| 0u8),
        decreases 24 - k,
    {
        out.push(0);
        proof {
            assert(out@ =~= start + Seq::new((k + 1) as nat, |i: int| 0u8));
        }
        k += 1;
    }
    proof {
        assert(((n >> 56) & 0xff) < 256 && ((n >> 48) & 0xff) < 256 && ((n >> 40) & 0xff) < 256
            && ((n >> 32) & 0xff) < 256 && ((n >> 24) & 0xff) < 256 && ((n >> 16) & 0xff) < 256
            && ((n >> 8) & 0xff) < 256 && (n & 0xff) < 256) by (bit_vector);
    }
    out.push(((n >> 56) & 0xff) as u8);
    out.push(((n >> 48) & 0xff) as u8);
    out.push(((n >> 40) & 0xff) as u8);
    out.push(((n >> 32) & 0xff) as u8);
    out.push(((n >> 24) & 0xff) as u8);
    out.push(((n >> 16) & 0xff) as u8);
    out.push(((n >> 8) & 0xff) as u8);
    out.push((n & 0xff) as u8);
    proof {
        assert(out@ =~= start + word_of(n));
    }
}

/// Encodes the call that hands the input bytes to the candidate's absorb
/// entry point.
pub fn encode_absorb_call(input: &Vec<u8>) -> (r: Vec<u8>)
    requires
        input@.len() + 100 <= usize::MAX,
    ensures
        r@ == absorb_calldata(input@),
{
    let mut out = selector_for(&absorb_signature_bytes());
    push_word(&mut out, 32);
    push_word(&mut out, input.len() as u64);
    let ghost head = out@;
    let mut i: usize = 0;
    while i < input.len()
        invariant
            i <= input@.len(),
            head.len() == 68,
            input@.len() + 100 <= usize::MAX,
            out@ =~= head + input@.take(i as int),
        decreases input@.len() - i,
    {
        out.push(input[i]);
        proof {
            assert(out@ =~= head + input@.take(i as int + 1));
        }
        i += 1;
    }
    proof {
        assert(input@.take(input@.len() as int) =~= input@);
    }
    let ghost body = out@;
    let pad: usize = (32 - (input.len() % 32)) % 32;
    let mut j: usize = 0;
    while j < pad
        invariant
            j <= pad,
            pad < 32,
            body.len() == 68 + input@.len(),
            input@.len() + 100 <= usize::MAX,
            out@ =~= body + Seq::new(j as nat, |i: int| 0u8),
        decreases pad - j,
    {
        out.push(0);
        proof {
            assert(out@ =~= body + Seq::new((j + 1) as nat, |i: int| 0u8));
        }
        j += 1;
    }
    proof {
        assert(pad == pad_of(input@.len()).len());
        assert(out@ =~= absorb_calldata(input@));
    }
    out
}

/// Encodes the call that asks the candidate's squeeze entry point for the
/// digest.
pub fn encode_squeeze_call() -> (r: Vec<u8>)
    ensures
        r@ == squeeze_calldata(),
{
    selector_for(&squeeze_signature_bytes())
}

/// Decodes the digest a squeeze call returned: the output must be exactly
/// one 32-byte word, which is the digest itself.
pub fn decode_digest(output: &Vec<u8>) -> (r: Option<Vec<u8>>)
    ensures
        r is Some <==> output@.len() == 32,
        r matches Some(d) ==> d@ == output@,
{
    if output.len() != 32 {
        return None;
    }
    let mut d: Vec<u8> = Vec::new();
    let mut i: usize = 0;
    while i < output.len()
        invariant
            i <= output@.len(),
            output@.len() == 32,
            d@ =~= output@.take(i as int),
        decreases output@.len() - i,
    {
        d.push(output[i]);
        proof {
            assert(d@ =~= output@.take(i as int + 1));
        }
        i += 1;
    }
    proof {
        assert(output@.take(output@.len() as int) =~= output@);
    }
    Some(d)
}

} // verus!
