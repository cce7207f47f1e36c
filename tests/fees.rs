use mwc_wallet::fees::{
    classify_script, detect_input_type, detect_output_type, estimate_fee, estimate_fee_checked,
    psbt_skeleton, psbt_skeleton_bytes, strict_script_kind, ScriptType,
};
use mwc_wallet::tx::UTXO;
use mwc_wallet::{estimate_fee_from_utxos_wasm, estimate_fee_wasm, FeeError};

const P2PKH_HEX: &str = "76a91489abcdefabbaabbaabbaabbaabbaabbaabbaabba88ac";
const P2SH_HEX: &str = "a91489abcdefabbaabbaabbaabbaabbaabbaabbaabba87";
const P2WPKH_HEX: &str = "001489abcdefabbaabbaabbaabbaabbaabbaabbaabba";

#[test]
fn test_auto_detect_fee() {
    let inputs = vec![
        "76a91489abcdefabbaabbaabbaabbaabbaabbaabbaabba88".to_string(), // P2PKH
        "001489abcdefabbaabbaabbaabbaabbaabbaabbaabba".to_string(),     // P2WPKH
    ];
    let outputs = vec![
        "76a91489abcdefabbaabbaabbaabbaabbaabbaabbaabba88".to_string(), // P2PKH
        "001489abcdefabbaabbaabbaabbaabbaabbaabbaabba".to_string(),     // P2WPKH
    ];
    let fee = estimate_fee(&inputs, &outputs, 50);
    println!("Estimated fee: {} sats", fee);
    assert!(fee > 0);
}

#[test]
fn test_psbt_skeleton() {
    let inputs = vec!["76a91489abcdefabbaabbaabbaabbaabbaabbaabbaabba88".to_string()];
    let outputs = vec!["001489abcdefabbaabbaabbaabbaabbaabbaabbaabba".to_string()];
    let psbt = psbt_skeleton(&inputs, &outputs);
    assert_eq!(psbt.get("inputs").unwrap().len(), 1);
    assert_eq!(psbt.get("outputs").unwrap().len(), 1);
}

#[test]
fn psbt_skeleton_keeps_scripts_and_refuses_other_keys() {
    let inputs = vec![P2PKH_HEX.to_string(), P2SH_HEX.to_string()];
    let outputs = vec![P2WPKH_HEX.to_string()];
    let psbt = psbt_skeleton(&inputs, &outputs);
    assert_eq!(psbt.get("inputs").unwrap(), &inputs);
    assert_eq!(psbt.get("outputs").unwrap(), &outputs);
    assert!(psbt.get("input").is_none());
    assert!(psbt.get("outputsx").is_none());
    assert!(psbt.get("").is_none());
}

#[test]
fn psbt_skeleton_bytes_layout() {
    assert_eq!(
        psbt_skeleton_bytes(1, 2),
        vec![0x70, 0x73, 0x62, 0x74, 0xff, 0, 0, 0, 0, 0, 0, 0]
    );
    assert_eq!(psbt_skeleton_bytes(0, 0).len(), 9);
}

#[test]
fn fee_auto_detect_exact_value() {
    // 592 + 271 + 136 + 124 + 40 = 1163 weight units, 291 virtual bytes.
    let inputs = vec![
        "76a91489abcdefabbaabbaabbaabbaabbaabbaabbaabba88".to_string(),
        P2WPKH_HEX.to_string(),
    ];
    let outputs = vec![
        "76a91489abcdefabbaabbaabbaabbaabbaabbaabbaabba88".to_string(),
        P2WPKH_HEX.to_string(),
    ];
    assert_eq!(estimate_fee(&inputs, &outputs, 50), 291 * 50);
}

#[test]
fn fee_one_p2pkh_in_one_p2wpkh_out_is_189_vbytes() {
    let inputs = vec![P2PKH_HEX.to_string()];
    let outputs = vec![P2WPKH_HEX.to_string()];
    for rate in [0u64, 1, 7, 50, 1000] {
        assert_eq!(estimate_fee(&inputs, &outputs, rate), 189 * rate);
    }
}

#[test]
fn fee_weights_per_type() {
    let p2sh_in = vec![P2SH_HEX.to_string()];
    // 363 + 128 + 40 = 531 -> 133 vbytes
    assert_eq!(estimate_fee(&p2sh_in, &[P2SH_HEX.to_string()], 1), 133);
    // 271 + 136 + 40 = 447 -> 112 vbytes
    assert_eq!(estimate_fee(&[P2WPKH_HEX.to_string()], &[P2PKH_HEX.to_string()], 2), 224);
    // no scripts at all: overhead only, 40 -> 10 vbytes
    assert_eq!(estimate_fee(&[], &[], 3), 30);
}

#[test]
fn fee_checked_reports_overflow() {
    let inputs = vec![P2PKH_HEX.to_string()];
    let outputs = vec![P2WPKH_HEX.to_string()];
    assert_eq!(estimate_fee_checked(&inputs, &outputs, u64::MAX), None);
    assert_eq!(estimate_fee_checked(&inputs, &outputs, u64::MAX / 189), Some(u64::MAX / 189 * 189));
}

#[test]
fn detection_of_script_types() {
    assert_eq!(detect_input_type(P2PKH_HEX), ScriptType::P2PKH);
    assert_eq!(detect_input_type(P2SH_HEX), ScriptType::P2SH);
    assert_eq!(detect_input_type(P2WPKH_HEX), ScriptType::P2WPKH);
    assert_eq!(detect_output_type(P2SH_HEX), ScriptType::P2SH);
    // unknown or unreadable scripts fall back to P2PKH for sizing
    assert_eq!(detect_input_type("6a"), ScriptType::P2PKH);
    assert_eq!(detect_input_type("zz"), ScriptType::P2PKH);
    assert_eq!(detect_output_type(""), ScriptType::P2PKH);
    // P2SH needs the trailing OP_EQUAL
    assert_eq!(classify_script(&[0xa9, 0x14, 0x00]), ScriptType::P2PKH);
    assert_eq!(classify_script(&[0xa9, 0x14, 0x87]), ScriptType::P2SH);
}

#[test]
fn strict_kinds_need_exact_templates() {
    let p2pkh = hex::decode(P2PKH_HEX).unwrap();
    let p2sh = hex::decode(P2SH_HEX).unwrap();
    let p2wpkh = hex::decode(P2WPKH_HEX).unwrap();
    assert_eq!(strict_script_kind(&p2pkh), Some(ScriptType::P2PKH));
    assert_eq!(strict_script_kind(&p2sh), Some(ScriptType::P2SH));
    assert_eq!(strict_script_kind(&p2wpkh), Some(ScriptType::P2WPKH));
    assert_eq!(strict_script_kind(&p2pkh[..24]), None);
    assert_eq!(strict_script_kind(&[0x6a]), None);
}

#[test]
fn fee_from_json_lists() {
    let ins = format!("[\"{}\"]", P2PKH_HEX);
    let outs = format!("[\"{}\"]", P2WPKH_HEX);
    assert_eq!(estimate_fee_wasm(&ins, &outs, 2), Ok(378));
    assert_eq!(estimate_fee_wasm("not json", &outs, 2), Err(FeeError::InvalidInputScripts));
    assert_eq!(estimate_fee_wasm(&ins, "[1, 2]", 2), Err(FeeError::InvalidOutputScripts));
    assert_eq!(estimate_fee_wasm(&ins, &outs, u64::MAX), Err(FeeError::Overflow));
}

#[test]
fn fee_from_utxo_scripts() {
    let utxos = vec![
        UTXO { txid: "00".repeat(32), vout: 0, scriptPubKey: P2PKH_HEX.to_string(), amount: 1 },
        UTXO { txid: "11".repeat(32), vout: 1, scriptPubKey: P2WPKH_HEX.to_string(), amount: 2 },
    ];
    let outs = format!("[\"{}\"]", P2WPKH_HEX);
    // 592 + 271 + 124 + 40 = 1027 -> 257 vbytes
    assert_eq!(estimate_fee_from_utxos_wasm(&utxos, &outs, 3), Ok(771));
    assert_eq!(estimate_fee_from_utxos_wasm(&utxos, "{}", 3), Err(FeeError::InvalidOutputScripts));
    assert_eq!(estimate_fee_from_utxos_wasm(&[], "[]", 5), Ok(50));
}
