use sponge_fuzz::decode_digest;
use sponge_fuzz::encode_absorb_call;
use sponge_fuzz::encode_squeeze_call;
use sponge_fuzz::reference_hash;

fn selector(signature: &[u8]) -> Vec<u8> {
    reference_hash(&signature.to_vec())[0..4].to_vec()
}

#[test]
fn absorb_calldata_layout_for_one_byte() {
    let calldata = encode_absorb_call(&vec![0x01]);
    let mut expected = selector(b"absorb(bytes)");
    let mut offset_word = vec![0u8; 32];
    offset_word[31] = 32;
    expected.extend_from_slice(&offset_word);
    let mut length_word = vec![0u8; 32];
    length_word[31] = 1;
    expected.extend_from_slice(&length_word);
    expected.push(0x01);
    expected.extend_from_slice(&[0u8; 31]);
    assert_eq!(calldata, expected);
}

#[test]
fn absorb_calldata_of_empty_input_is_bare_header() {
    let calldata = encode_absorb_call(&Vec::new());
    assert_eq!(calldata.len(), 68);
    assert_eq!(&calldata[0..4], selector(b"absorb(bytes)").as_slice());
    assert_eq!(&calldata[36..68], &[0u8; 32]);
}

#[test]
fn absorb_calldata_pads_only_past_word_boundaries() {
    assert_eq!(encode_absorb_call(&vec![0xaa; 32]).len(), 68 + 32);
    assert_eq!(encode_absorb_call(&vec![0xaa; 33]).len(), 68 + 64);
    assert_eq!(encode_absorb_call(&vec![0xaa; 64]).len(), 68 + 64);
}

#[test]
fn squeeze_calldata_is_the_bare_selector() {
    assert_eq!(encode_squeeze_call(), selector(b"squeeze()"));
}

#[test]
fn digest_decodes_only_from_exactly_one_word() {
    assert_eq!(decode_digest(&vec![0x11; 32]), Some(vec![0x11; 32]));
    assert!(decode_digest(&vec![0x11; 31]).is_none());
    assert!(decode_digest(&vec![0x11; 33]).is_none());
    assert!(decode_digest(&Vec::new()).is_none());
}
