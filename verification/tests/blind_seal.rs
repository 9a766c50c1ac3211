use bitcoin::hashes::sha256;
use bp_seals::{
    CloseMethod, ConcealedSeal, ExplicitSeal, OutPoint, ParseError, RevealedSeal, Txid, TxoSeal,
    VerifyError,
};
use lnpbp_bech32::Bech32DataString;

const DIGEST: [u8; 32] = [
    18, 141, 105, 217, 58, 90, 9, 140, 197, 71, 6, 85, 72, 132, 16, 221, 211, 171, 52, 241, 203,
    168, 41, 189, 252, 58, 248, 102, 58, 198, 170, 73,
];

const DIGEST_TEXT: &str = "data1z2xknkf6tgyce328qe253pqsmhf6kd83ew5zn00u8tuxvwkx4fysvw08gk";

fn counting_txid() -> Txid {
    let mut bytes = [0u8; 32];
    for (i, byte) in bytes.iter_mut().enumerate() {
        *byte = i as u8;
    }
    Txid::from_inner(bytes)
}

fn sample() -> RevealedSeal {
    RevealedSeal::with(
        CloseMethod::TapretFirst,
        Some(counting_txid()),
        0x0102_0304,
        0x1122_3344_5566_7788,
    )
}

#[test]
fn commitment_message_layout() {
    let mut expected = vec![1u8];
    expected.extend(0u8..32);
    expected.extend([4u8, 3, 2, 1]);
    expected.extend([0x88u8, 0x77, 0x66, 0x55, 0x44, 0x33, 0x22, 0x11]);
    assert_eq!(sample().commitment_message(), expected);
}

#[test]
fn absent_txid_commits_to_zero_bytes() {
    let seal = RevealedSeal::with(CloseMethod::OpretFirst, None, 5, 54);
    let mut expected = vec![0u8];
    expected.extend([0u8; 32]);
    expected.extend([5u8, 0, 0, 0]);
    expected.extend([54u8, 0, 0, 0, 0, 0, 0, 0]);
    assert_eq!(seal.commitment_message(), expected);
    let digest = [
        26, 254, 60, 86, 161, 197, 45, 94, 7, 248, 198, 246, 133, 231, 178, 160, 12, 138, 156,
        213, 245, 67, 103, 128, 243, 179, 231, 254, 159, 158, 112, 31,
    ];
    assert_eq!(seal.conceal(), ConcealedSeal::from_inner(digest));
}

#[test]
fn conceal_is_the_sha256_of_the_message() {
    assert_eq!(sample().conceal().into_inner(), DIGEST);
    assert_eq!(ConcealedSeal::commit(&sample()).into_inner(), DIGEST);
    let seal = RevealedSeal::with(CloseMethod::OpretFirst, None, 77, 1234567);
    let hash: sha256::Hash = bitcoin::hashes::Hash::hash(&seal.commitment_message());
    let expected = bitcoin::hashes::Hash::into_inner(hash);
    assert_eq!(seal.conceal().into_inner(), expected);
}

#[test]
fn conceal_is_deterministic() {
    let seal = sample();
    assert_eq!(seal.conceal(), seal.conceal());
    assert_eq!(seal.conceal().into_inner(), sample().conceal().into_inner());
}

#[test]
fn concealed_seal_verifies_its_revealed_seal() {
    let seal = sample();
    assert!(seal.conceal().verify(&seal));
    assert_eq!(seal.conceal().verify_strict(&seal), Ok(()));
    let bare = RevealedSeal::with(CloseMethod::OpretFirst, None, 0, 0);
    assert!(bare.conceal().verify(&bare));
}

#[test]
fn concealed_seal_refuses_any_other_seal() {
    let seal = sample();
    let concealed = seal.conceal();
    let mut other_txid = counting_txid().into_inner();
    other_txid[0] ^= 0x80;
    let others = [
        RevealedSeal { method: CloseMethod::OpretFirst, ..seal },
        RevealedSeal { txid: Some(Txid::from_inner(other_txid)), ..seal },
        RevealedSeal { txid: None, ..seal },
        RevealedSeal { vout: seal.vout + 1, ..seal },
        RevealedSeal { blinding: seal.blinding ^ 1, ..seal },
    ];
    for other in others {
        assert_ne!(other, seal);
        assert!(!concealed.verify(&other));
        assert_eq!(concealed.verify_strict(&other), Err(VerifyError));
        assert_ne!(other.conceal(), concealed);
    }
}

#[test]
fn verification_compares_every_byte() {
    let seal = sample();
    for i in 0..32 {
        let mut bytes = DIGEST;
        bytes[i] ^= 1;
        assert!(!ConcealedSeal::from_inner(bytes).verify(&seal));
    }
    assert!(ConcealedSeal::from_inner(DIGEST).verify(&seal));
}

#[test]
fn zero_txid_commits_like_an_absent_one() {
    let absent = RevealedSeal::with(CloseMethod::TapretFirst, None, 1, 2);
    let zero = RevealedSeal::with(CloseMethod::TapretFirst, Some(Txid::from_inner([0; 32])), 1, 2);
    assert_ne!(absent, zero);
    assert_eq!(absent.commitment_message(), zero.commitment_message());
    assert!(absent.conceal().verify(&zero));
}

#[test]
fn new_draws_a_blinding_factor_for_the_outpoint() {
    let outpoint = OutPoint::new(counting_txid(), 11);
    let seal = RevealedSeal::new(CloseMethod::OpretFirst, outpoint);
    assert_eq!(seal.method, CloseMethod::OpretFirst);
    assert_eq!(seal.txid, Some(counting_txid()));
    assert_eq!(seal.vout, 11);
    assert_eq!(
        seal,
        RevealedSeal::with(CloseMethod::OpretFirst, Some(counting_txid()), 11, seal.blinding)
    );
    assert!(seal.conceal().verify(&seal));
}

#[test]
fn revealed_seal_accessors() {
    let default_txid = Txid::from_inner([0x55; 32]);
    let seal = sample();
    assert_eq!(seal.method(), CloseMethod::TapretFirst);
    assert_eq!(seal.txid(), Some(counting_txid()));
    assert_eq!(seal.vout(), 0x0102_0304usize);
    assert_eq!(seal.outpoint(), Some(OutPoint::new(counting_txid(), 0x0102_0304)));
    assert_eq!(seal.txid_or(default_txid), counting_txid());
    assert_eq!(seal.outpoint_or(default_txid), OutPoint::new(counting_txid(), 0x0102_0304));
    let bare = RevealedSeal::with(CloseMethod::OpretFirst, None, 3, 9);
    assert_eq!(bare.txid(), None);
    assert_eq!(bare.outpoint(), None);
    assert_eq!(bare.txid_or(default_txid), default_txid);
    assert_eq!(bare.outpoint_or(default_txid), OutPoint::new(default_txid, 3));
    assert_eq!(bare.to_explicit(), ExplicitSeal::with(CloseMethod::OpretFirst, None, 3));
}

#[test]
fn concealed_seal_text_is_bech32m_data() {
    let concealed = ConcealedSeal::from_inner(DIGEST);
    assert_eq!(concealed.to_string(), DIGEST_TEXT);
    assert_eq!(ConcealedSeal::from_str(DIGEST_TEXT), Ok(concealed));
    assert_eq!(sample().conceal().to_string(), DIGEST_TEXT);
}

#[test]
fn concealed_seal_text_round_trip() {
    for seal in [sample(), RevealedSeal::with(CloseMethod::OpretFirst, None, 0, 0)] {
        let concealed = seal.conceal();
        let text = concealed.to_string();
        assert!(text.starts_with("data1"));
        assert_eq!(ConcealedSeal::from_str(&text), Ok(concealed));
    }
}

#[test]
fn concealed_seal_text_with_transcription_error_is_refused() {
    let damaged = DIGEST_TEXT.replace("z2xk", "z2xl");
    assert!(matches!(ConcealedSeal::from_str(&damaged), Err(ParseError::Bech32(_))));
    assert!(matches!(ConcealedSeal::from_str(""), Err(ParseError::Bech32(_))));
    assert!(matches!(
        ConcealedSeal::from_str("tapret1st:~:0"),
        Err(ParseError::Bech32(_))
    ));
    let legacy = "data1z2xknkf6tgyce328qe253pqsmhf6kd83ew5zn00u8tuxvwkx4fysejltd5";
    assert_eq!(
        ConcealedSeal::from_str(legacy),
        Err(ParseError::Bech32(lnpbp_bech32::Error::WrongVariant))
    );
    let prefixed = "txob1z2xknkf6tgyce328qe253pqsmhf6kd83ew5zn00u8tuxvwkx4fys757663";
    assert_eq!(
        ConcealedSeal::from_str(prefixed),
        Err(ParseError::Bech32(lnpbp_bech32::Error::WrongPrefix))
    );
}

#[test]
fn concealed_seal_text_of_another_length_has_wrong_structure() {
    let short = vec![1u8, 2, 3].bech32_data_string();
    assert_eq!(short, "data1qypqxvcx4vw");
    assert_eq!(ConcealedSeal::from_str(&short), Err(ParseError::WrongStructure));
    let long = vec![0u8; 33].bech32_data_string();
    assert_eq!(ConcealedSeal::from_str(&long), Err(ParseError::WrongStructure));
    let empty = Vec::<u8>::new().bech32_data_string();
    assert_eq!(ConcealedSeal::from_str(&empty), Err(ParseError::WrongStructure));
}

#[test]
fn from_payload_maps_each_outcome() {
    assert_eq!(
        ConcealedSeal::from_payload(Ok(DIGEST.to_vec())),
        Ok(ConcealedSeal::from_inner(DIGEST))
    );
    assert_eq!(
        ConcealedSeal::from_payload(Ok(vec![0u8; 31])),
        Err(ParseError::WrongStructure)
    );
    assert_eq!(
        ConcealedSeal::from_payload(Err(lnpbp_bech32::Error::WrongPrefix)),
        Err(ParseError::Bech32(lnpbp_bech32::Error::WrongPrefix))
    );
    assert_eq!(
        ParseError::from(lnpbp_bech32::Error::WrongVariant),
        ParseError::Bech32(lnpbp_bech32::Error::WrongVariant)
    );
}
