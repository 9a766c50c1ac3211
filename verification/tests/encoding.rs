use bp_seals::wire::{push_u32_le, push_u64_le, read_u32_le, read_u64_le};
use bp_seals::{CloseMethod, ConcealedSeal, ExplicitSeal, RevealedSeal, Txid};

fn counting_txid() -> Txid {
    let mut bytes = [0u8; 32];
    for (i, byte) in bytes.iter_mut().enumerate() {
        *byte = i as u8;
    }
    Txid::from_inner(bytes)
}

#[test]
fn little_endian_numbers() {
    let mut out = vec![0xffu8];
    push_u32_le(&mut out, 0x0102_0304);
    push_u64_le(&mut out, 0x1122_3344_5566_7788);
    assert_eq!(
        out,
        vec![0xff, 4, 3, 2, 1, 0x88, 0x77, 0x66, 0x55, 0x44, 0x33, 0x22, 0x11]
    );
    assert_eq!(read_u32_le(&out, 1), 0x0102_0304);
    assert_eq!(read_u64_le(&out, 5), 0x1122_3344_5566_7788);
    for v in [0u32, 1, 255, 256, 65535, 65536, u32::MAX] {
        let mut out = Vec::new();
        push_u32_le(&mut out, v);
        assert_eq!(out, v.to_le_bytes().to_vec());
        assert_eq!(read_u32_le(&out, 0), v);
    }
    for v in [0u64, 1, u32::MAX as u64, u32::MAX as u64 + 1, u64::MAX] {
        let mut out = Vec::new();
        push_u64_le(&mut out, v);
        assert_eq!(out, v.to_le_bytes().to_vec());
        assert_eq!(read_u64_le(&out, 0), v);
    }
}

#[test]
fn explicit_seal_without_txid_takes_six_bytes() {
    let seal = ExplicitSeal::with(CloseMethod::TapretFirst, None, 0x0102_0304);
    assert_eq!(seal.encode(), vec![1, 0, 4, 3, 2, 1]);
    assert_eq!(ExplicitSeal::decode(&[1, 0, 4, 3, 2, 1]), Some(seal));
}

#[test]
fn explicit_seal_with_txid_takes_thirty_eight_bytes() {
    let seal = ExplicitSeal::with(CloseMethod::OpretFirst, Some(counting_txid()), 258);
    let mut expected = vec![0u8, 1];
    expected.extend(0u8..32);
    expected.extend([2u8, 1, 0, 0]);
    assert_eq!(seal.encode(), expected);
    assert_eq!(ExplicitSeal::decode(&expected), Some(seal));
}

#[test]
fn explicit_seal_decoding_refuses_malformed_bytes() {
    assert_eq!(ExplicitSeal::decode(&[]), None);
    assert_eq!(ExplicitSeal::decode(&[1]), None);
    assert_eq!(ExplicitSeal::decode(&[2, 0, 0, 0, 0, 0]), None);
    assert_eq!(ExplicitSeal::decode(&[1, 2, 0, 0, 0, 0]), None);
    assert_eq!(ExplicitSeal::decode(&[1, 0, 0, 0, 0]), None);
    assert_eq!(ExplicitSeal::decode(&[1, 0, 0, 0, 0, 0, 0]), None);
    assert_eq!(ExplicitSeal::decode(&[1, 1, 0, 0, 0, 0]), None);
    let mut long = vec![0u8, 0];
    long.extend([0u8; 36]);
    assert_eq!(ExplicitSeal::decode(&long), None);
    long[1] = 1;
    assert!(ExplicitSeal::decode(&long).is_some());
    long.push(0);
    assert_eq!(ExplicitSeal::decode(&long), None);
}

#[test]
fn revealed_seal_appends_the_blinding_factor() {
    let seal = RevealedSeal::with(CloseMethod::TapretFirst, None, 5, 0x1122_3344_5566_7788);
    let expected = vec![1u8, 0, 5, 0, 0, 0, 0x88, 0x77, 0x66, 0x55, 0x44, 0x33, 0x22, 0x11];
    assert_eq!(seal.encode(), expected);
    assert_eq!(RevealedSeal::decode(&expected), Some(seal));
    let seal = RevealedSeal::with(CloseMethod::OpretFirst, Some(counting_txid()), 5, 1);
    let bytes = seal.encode();
    assert_eq!(bytes.len(), 46);
    assert_eq!(&bytes[..38], &seal.to_explicit().encode()[..]);
    assert_eq!(&bytes[38..], &[1u8, 0, 0, 0, 0, 0, 0, 0][..]);
    assert_eq!(RevealedSeal::decode(&bytes), Some(seal));
}

#[test]
fn revealed_seal_decoding_refuses_malformed_bytes() {
    assert_eq!(RevealedSeal::decode(&[]), None);
    assert_eq!(RevealedSeal::decode(&[1, 0, 5, 0, 0, 0]), None);
    assert_eq!(RevealedSeal::decode(&[1, 0, 5, 0, 0, 0, 1, 2, 3, 4, 5, 6, 7]), None);
    assert_eq!(RevealedSeal::decode(&[1, 0, 5, 0, 0, 0, 1, 2, 3, 4, 5, 6, 7, 8, 9]), None);
    assert_eq!(RevealedSeal::decode(&[7, 0, 5, 0, 0, 0, 1, 2, 3, 4, 5, 6, 7, 8]), None);
    assert_eq!(RevealedSeal::decode(&[0; 8]), None);
}

#[test]
fn binary_round_trip() {
    for method in [CloseMethod::OpretFirst, CloseMethod::TapretFirst] {
        for txid in [None, Some(counting_txid()), Some(Txid::from_inner([0; 32]))] {
            for vout in [0u32, 1, 0xdead_beef, u32::MAX] {
                let seal = ExplicitSeal::with(method, txid, vout);
                assert_eq!(ExplicitSeal::decode(&seal.encode()), Some(seal));
                for blinding in [0u64, 1, 0xdead_beef_0bad_cafe, u64::MAX] {
                    let seal = RevealedSeal::with(method, txid, vout, blinding);
                    assert_eq!(RevealedSeal::decode(&seal.encode()), Some(seal));
                }
            }
        }
    }
}

#[test]
fn concealed_seal_is_its_thirty_two_bytes() {
    let seal = ConcealedSeal::from_inner(counting_txid().into_inner());
    let bytes = seal.encode();
    assert_eq!(bytes, (0u8..32).collect::<Vec<u8>>());
    assert_eq!(ConcealedSeal::decode(&bytes), Some(seal));
    assert_eq!(ConcealedSeal::decode(&bytes[1..]), None);
    assert_eq!(ConcealedSeal::decode(&[]), None);
    let mut long = bytes.clone();
    long.push(0);
    assert_eq!(ConcealedSeal::decode(&long), None);
}
