use mwc_wallet::bech32::{decode_segwit, encode_segwit};
use mwc_wallet::crypto::{checksum, double_sha256, hash160, sha256};
use mwc_wallet::network::Network;
use mwc_wallet::utils::{
    base64_to_bytes, bytes_to_base64, bytes_to_hex, classify_tx, hex_to_bytes, is_psbt_bytes,
    parse_tx_or_psbt, try_classify_tx, u32_le, u64_le, varint, TxInputType,
};

#[test]
fn varint_boundaries() {
    assert_eq!(varint(0), vec![0x00]);
    assert_eq!(varint(0xfc), vec![0xfc]);
    assert_eq!(varint(0xfd), vec![0xfd, 0xfd, 0x00]);
    assert_eq!(varint(0xffff), vec![0xfd, 0xff, 0xff]);
    assert_eq!(varint(0x1_0000), vec![0xfe, 0x00, 0x00, 0x01, 0x00]);
    assert_eq!(varint(0xffff_ffff), vec![0xfe, 0xff, 0xff, 0xff, 0xff]);
    assert_eq!(
        varint(0x1_0000_0000),
        vec![0xff, 0x00, 0x00, 0x00, 0x00, 0x01, 0x00, 0x00, 0x00]
    );
}

#[test]
fn little_endian_integers() {
    assert_eq!(u32_le(1), [1, 0, 0, 0]);
    assert_eq!(u32_le(0xffff_ffff), [0xff; 4]);
    assert_eq!(u32_le(0x1234_5678), [0x78, 0x56, 0x34, 0x12]);
    assert_eq!(u64_le(50_000), [0x50, 0xc3, 0, 0, 0, 0, 0, 0]);
    assert_eq!(u64_le(0x0102_0304_0506_0708), [8, 7, 6, 5, 4, 3, 2, 1]);
}

#[test]
fn hex_round_trip() {
    assert_eq!(hex_to_bytes("00ff10Ab"), vec![0x00, 0xff, 0x10, 0xab]);
    assert_eq!(bytes_to_hex(&[0x00, 0xff, 0x10, 0xab]), "00ff10ab");
    assert_eq!(bytes_to_hex(&[]), "");
}

#[test]
fn base64_round_trip() {
    assert_eq!(bytes_to_base64(b"psbt\xff"), "cHNidP8=");
    assert_eq!(base64_to_bytes("cHNidP8="), b"psbt\xff".to_vec());
}

#[test]
fn hashes_match_known_vectors() {
    assert_eq!(
        bytes_to_hex(&sha256(b"abc")),
        "ba7816bf8f01cfea414140de5dae2223b00361a396177a9cb410ff61f20015ad"
    );
    assert_eq!(
        bytes_to_hex(&double_sha256(b"abc")),
        "4f8b42c22dd3729b519ba6f68d2da7cc5b2d606d05daed5ad5128cc03e6c6358"
    );
    assert_eq!(checksum(b"abc"), hex_to_bytes("4f8b42c2"));
    // hash160 of the compressed generator point
    let g = hex_to_bytes("0279be667ef9dcbbac55a06295ce870b07029bfcdb2dce28d959f2815b16f81798");
    assert_eq!(bytes_to_hex(&hash160(&g)), "751e76e8199196d454941c45d1b3a323f1433bd6");
}

#[test]
fn segwit_encoding_known_vector() {
    let prog = hex_to_bytes("751e76e8199196d454941c45d1b3a323f1433bd6");
    let addr = encode_segwit("bc", 0, &prog);
    assert_eq!(addr, "bc1qw508d6qejxtdg4y5r3zarvary0c5xw7kv8f3t4");
    let (hrp, ver, decoded) = decode_segwit(&addr).unwrap();
    assert_eq!(hrp, "bc");
    assert_eq!(ver, 0);
    assert_eq!(decoded, prog);
}

#[test]
fn segwit_decoding_refuses_bad_text() {
    assert!(decode_segwit("bc1qw508d6qejxtdg4y5r3zarvary0c5xw7kv8f3t5").is_none());
    assert!(decode_segwit("no separator").is_none());
}

#[test]
fn network_parameters() {
    assert_eq!(Network::Mainnet.p2pkh_prefix(), 0x14);
    assert_eq!(Network::Testnet.p2pkh_prefix(), 0x53);
    assert_eq!(Network::Mainnet.p2sh_prefix(), 0x0a);
    assert_eq!(Network::Testnet.p2sh_prefix(), 0xc5);
    assert_eq!(Network::Mainnet.wif_prefix(), 0x7b);
    assert_eq!(Network::Testnet.wif_prefix(), 0xf0);
    assert_eq!(Network::Mainnet.bech32_hrp(), "mwc");
    assert_eq!(Network::Testnet.bech32_hrp(), "tmwc");
    assert!(Network::Mainnet.matches_bech32("mwc1qxyz"));
    assert!(!Network::Mainnet.matches_bech32("tmwc1qxyz"));
    assert!(Network::Testnet.matches_bech32("tmwc1qxyz"));
    assert!(!Network::Testnet.matches_bech32("tmw"));
}

#[test]
fn psbt_detection() {
    assert!(is_psbt_bytes(b"psbt\xff"));
    assert!(!is_psbt_bytes(b"psbt"));
    assert!(!is_psbt_bytes(&[0x01, 0x00, 0x00, 0x00, 0x00]));
    assert_eq!(parse_tx_or_psbt("0100"), vec![1, 0]);
    assert_eq!(parse_tx_or_psbt("cHNidP8="), b"psbt\xff".to_vec());
    assert_eq!(classify_tx("cHNidP8="), TxInputType::Psbt);
    assert_eq!(classify_tx("7073627400"), TxInputType::Psbt);
    assert_eq!(classify_tx("01000000"), TxInputType::RawTransaction);
    assert_eq!(try_classify_tx("cHNidP8="), Some(TxInputType::Psbt));
    assert_eq!(try_classify_tx("!!"), None);
}
