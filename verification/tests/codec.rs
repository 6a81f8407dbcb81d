use sponge_fuzz::hex_decode;
use sponge_fuzz::hex_encode;
use sponge_fuzz::reference_hash;
use sponge_fuzz::HexDecodeError;

#[test]
fn hex_encode_known_bytes() {
    assert_eq!(hex_encode(&vec![0x00, 0xff, 0x10, 0xab]), b"00ff10ab".to_vec());
    assert_eq!(hex_encode(&vec![]), Vec::<u8>::new());
    assert_eq!(hex_encode(&vec![0x01]), b"01".to_vec());
}

#[test]
fn hex_decode_known_bytes() {
    assert_eq!(hex_decode(&b"00ff10ab".to_vec()).unwrap(), vec![0x00, 0xff, 0x10, 0xab]);
    assert_eq!(hex_decode(&Vec::new()).unwrap(), Vec::<u8>::new());
}

#[test]
fn hex_decode_accepts_upper_case() {
    assert_eq!(hex_decode(&b"DeadBEEF".to_vec()).unwrap(), vec![0xde, 0xad, 0xbe, 0xef]);
}

#[test]
fn hex_decode_rejects_odd_length() {
    assert!(matches!(hex_decode(&b"abc".to_vec()), Err(HexDecodeError::OddLength)));
}

#[test]
fn hex_decode_rejects_non_digit() {
    assert!(matches!(hex_decode(&b"0g".to_vec()), Err(HexDecodeError::InvalidDigit)));
    assert!(matches!(hex_decode(&b"zz".to_vec()), Err(HexDecodeError::InvalidDigit)));
}

#[test]
fn hex_round_trips_through_decode() {
    let data: Vec<u8> = (0u16..=255).map(|b| b as u8).collect();
    let encoded = hex_encode(&data);
    assert_eq!(hex_decode(&encoded).unwrap(), data);
}

#[test]
fn reference_hash_of_empty_input() {
    let digest = reference_hash(&Vec::new());
    let expected =
        hex_decode(&b"c5d2460186f7233c927e7db2dcc703c0e500b653ca82273b7bfad8045d85a470".to_vec())
            .unwrap();
    assert_eq!(digest, expected);
}

#[test]
fn reference_hash_matches_backend_directly() {
    for input in [Vec::new(), vec![0x01], b"abc".to_vec(), vec![0xaa; 200]] {
        let mut expected = [0u8; 32];
        let mut hasher = tiny_keccak::Keccak::v256();
        tiny_keccak::Hasher::update(&mut hasher, &input);
        tiny_keccak::Hasher::finalize(hasher, &mut expected);
        assert_eq!(reference_hash(&input), expected.to_vec());
    }
}

#[test]
fn reference_hash_is_stateless_across_calls() {
    let first = reference_hash(&b"abc".to_vec());
    let _ = reference_hash(&vec![0x55; 77]);
    let second = reference_hash(&b"abc".to_vec());
    assert_eq!(first, second);
    assert_eq!(first.len(), 32);
}
