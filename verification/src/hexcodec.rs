use vstd::prelude::*;

verus! {

/// The lower-case ASCII character for one hex digit value.
pub open spec fn hex_char_of(v: u8) -> u8
    recommends
        v < 16,
{
    if v < 10 {
        (0x30 + v) as u8
    } else {
        (0x57 + v) as u8
    }
}

/// The value of one ASCII hex character, if it is one; digits and both
/// letter cases are accepted.
pub open spec fn hex_val_of(c: u8) -> Option<u8> {
    if 0x30 <= c && c <= 0x39 {
        Some((c - 0x30) as u8)
    } else if 0x61 <= c && c <= 0x66 {
        Some((c - 0x61 + 10) as u8)
    } else if 0x41 <= c && c <= 0x46 {
        Some((c - 0x41 + 10) as u8)
    } else {
        None
    }
}

/// The hex encoding of a byte sequence: two lower-case digits per byte.
pub open spec fn hex_encoding_of(b: Seq<u8>) -> Seq<u8> {
    Seq::new(
        2 * b.len(),
        |i: int| if i % 2 == 0 {
            hex_char_of(b[i / 2] >> 4)
        } else {
            hex_char_of(b[i / 2] & 0xf)
        },
    )
}

/// Whether a byte sequence is a well-formed hex string: even length, every
/// byte a hex digit.
pub open spec fn hex_well_formed(s: Seq<u8>) -> bool {
    s.len() % 2 == 0 && forall|i: int| 0 <= i < s.len() ==> (#[trigger] hex_val_of(s[i])) is Some
}

/// The bytes that a well-formed hex string denotes.
pub open spec fn hex_decoding_of(s: Seq<u8>) -> Seq<u8>
    recommends
        hex_well_formed(s),
{
    Seq::new(
        s.len() / 2,
        |i: int| (16 * hex_val_of(s[2 * i]).unwrap() + hex_val_of(s[2 * i + 1]).unwrap()) as u8,
    )
}

/// A byte sequence that is not a hex encoding of anything.
#[derive(Debug)]
pub enum HexDecodeError {
    /// The length is odd, so the last digit has no partner.
    OddLength,
    /// Some byte is not an ASCII hex digit.
    InvalidDigit,
}

fn hex_val(c: u8) -> (r: Option<u8>)
    ensures
        r == hex_val_of(c),
        r matches Some(v) ==> v < 16,
{
    if 0x30 <= c && c <= 0x39 {
        Some(c - 0x30)
    } else if 0x61 <= c && c <= 0x66 {
        Some(c - 0x61 + 10)
    } else if 0x41 <= c && c <= 0x46 {
        Some(c - 0x41 + 10)
    } else {
        None
    }
}

/// Encodes bytes as a lower-case hex string, returned as ASCII bytes.
pub fn hex_encode(b: &Vec<u8>) -> (r: Vec<u8>)
    requires
        b@.len() * 2 <= usize::MAX,
    ensures
        r@ == hex_encoding_of(b@),
{
    let mut r: Vec<u8> = Vec::new();
    let mut i: usize = 0;
    while i < b.len()
        invariant
            i <= b@.len(),
            b@.len() * 2 <= usize::MAX,
            r@ == hex_encoding_of(b@.take(i as int)),
        decreases b@.len() - i,
    {
        let byte = b[i];
        proof {
            let ghost bb = byte;
            assert(bb >> 4 < 16 && (bb & 0xf) < 16) by (bit_vector);
        }
        let hi = byte >> 4;
        let lo = byte & 0xf;
        r.push(if hi < 10 { 0x30 + hi } else { 0x57 + hi });
        r.push(if lo < 10 { 0x30 + lo } else { 0x57 + lo });
        proof {
            assert(r@ =~= hex_encoding_of(b@.take(i as int + 1)));
        }
        i += 1;
    }
    proof {
        assert(b@.take(b@.len() as int) =~= b@);
    }
    r
}

/// Decodes a hex string given as ASCII bytes, and says exactly when it
/// refuses: an odd length, or a byte that is no hex digit.
pub fn hex_decode(s: &Vec<u8>) -> (r: Result<Vec<u8>, HexDecodeError>)
    ensures
        r is Ok <==> hex_well_formed(s@),
        r matches Ok(v) ==> v@ == hex_decoding_of(s@),
        r matches Err(HexDecodeError::OddLength) <==> s@.len() % 2 != 0,
        r matches Err(HexDecodeError::InvalidDigit) <==> (s@.len() % 2 == 0
            && !hex_well_formed(s@)),
{
    if s.len() % 2 != 0 {
        return Err(HexDecodeError::OddLength);
    }
    let mut out: Vec<u8> = Vec::new();
    let mut i: usize = 0;
    while i < s.len()
        invariant
            s@.len() % 2 == 0,
            i % 2 == 0,
            i <= s@.len(),
            forall|j: int| 0 <= j < i ==> (#[trigger] hex_val_of(s@[j])) is Some,
            out@ == hex_decoding_of(s@.take(i as int)),
        decreases s@.len() - i,
    {
        let v0 = hex_val(s[i]);
        let v1 = hex_val(s[i + 1]);
        match (v0, v1) {
            (Some(a), Some(b)) => {
                out.push(16 * a + b);
                proof {
                    assert(out@ =~= hex_decoding_of(s@.take(i as int + 2)));
                }
            },
            _ => {
                return Err(HexDecodeError::InvalidDigit);
            },
        }
        i += 2;
    }
    proof {
        assert(s@.take(s@.len() as int) =~= s@);
    }
    Ok(out)
}

/// Encoding a digit value below sixteen and reading it back returns the
/// value itself.
proof fn lemma_hex_char_val(v: u8)
    requires
        v < 16,
    ensures
        hex_val_of(hex_char_of(v)) == Some(v),
{
}

/// Round trip: the hex encoding of any byte sequence is well formed, and
/// decoding it returns the original bytes.
pub proof fn lemma_hex_round_trip(b: Seq<u8>)
    ensures
        hex_well_formed(hex_encoding_of(b)),
        hex_decoding_of(hex_encoding_of(b)) == b,
{
    let e = hex_encoding_of(b);
    assert forall|i: int| 0 <= i < e.len() implies (#[trigger] hex_val_of(e[i])) is Some by {
        let bb = b[i / 2];
        assert(bb >> 4 < 16 && (bb & 0xf) < 16) by (bit_vector);
        if i % 2 == 0 {
            lemma_hex_char_val(bb >> 4);
        } else {
            lemma_hex_char_val(bb & 0xf);
        }
    }
    assert forall|i: int| 0 <= i < b.len() implies hex_decoding_of(e)[i] == b[i] by {
        let bb = b[i];
        assert(bb >> 4 < 16 && (bb & 0xf) < 16 && 16 * (bb >> 4) + (bb & 0xf) == bb)
            by (bit_vector);
        lemma_hex_char_val(bb >> 4);
        lemma_hex_char_val(bb & 0xf);
        assert(e[2 * i] == hex_char_of(bb >> 4));
        assert(e[2 * i + 1] == hex_char_of(bb & 0xf));
    }
    assert(hex_decoding_of(e) =~= b);
}

} // verus!
