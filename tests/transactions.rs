use mwc_wallet::address::{p2pkh_script, p2wpkh_script, pubkey_to_address, pubkey_to_bech32};
use mwc_wallet::crypto::{bip143_sighash, hash160, legacy_sighash};
use mwc_wallet::keys::{privkey_to_pubkey, secret_to_wif, PublicKey, SecretKey};
use mwc_wallet::network::Network;
use mwc_wallet::tx::{
    build_transaction, change_policy, create_and_sign, serialize_outputs, TxError, UTXO,
};
use mwc_wallet::utils::{bytes_to_hex, hex_to_bytes};
use mwc_wallet::{create_signed_tx_full, FeeError};

struct ParsedTx {
    segwit: bool,
    inputs: Vec<(Vec<u8>, Vec<u8>, u32)>,
    outputs: Vec<(u64, Vec<u8>)>,
    witnesses: Vec<Vec<Vec<u8>>>,
    locktime: u32,
}

struct Reader<'a> {
    b: &'a [u8],
    pos: usize,
}

impl<'a> Reader<'a> {
    fn take(&mut self, n: usize) -> Vec<u8> {
        let v = self.b[self.pos..self.pos + n].to_vec();
        self.pos += n;
        v
    }
    fn le(&mut self, n: usize) -> u64 {
        let v = self.take(n);
        v.iter().rev().fold(0u64, |acc, x| (acc << 8) | *x as u64)
    }
    fn var(&mut self) -> u64 {
        match self.take(1)[0] {
            0xfd => self.le(2),
            0xfe => self.le(4),
            0xff => self.le(8),
            n => n as u64,
        }
    }
}

fn parse_tx(raw: &[u8]) -> ParsedTx {
    let mut r = Reader { b: raw, pos: 0 };
    assert_eq!(r.le(4), 1);
    let segwit = raw[4] == 0x00;
    if segwit {
        assert_eq!(r.take(2), vec![0x00, 0x01]);
    }
    let n_in = r.var();
    let mut inputs = Vec::new();
    for _ in 0..n_in {
        let outpoint = r.take(36);
        let len = r.var() as usize;
        let script = r.take(len);
        let seq = r.le(4) as u32;
        inputs.push((outpoint, script, seq));
    }
    let n_out = r.var();
    let mut outputs = Vec::new();
    for _ in 0..n_out {
        let value = r.le(8);
        let len = r.var() as usize;
        outputs.push((value, r.take(len)));
    }
    let mut witnesses = Vec::new();
    if segwit {
        for _ in 0..n_in {
            let items = r.var();
            let mut list = Vec::new();
            for _ in 0..items {
                let len = r.var() as usize;
                list.push(r.take(len));
            }
            witnesses.push(list);
        }
    }
    let locktime = r.le(4) as u32;
    assert_eq!(r.pos, raw.len());
    ParsedTx { segwit, inputs, outputs, witnesses, locktime }
}

fn signer(b: u8) -> (SecretKey, PublicKey) {
    let sk = SecretKey::from_slice(&[b; 32]).unwrap();
    let pk = privkey_to_pubkey(&sk);
    (sk, pk)
}

fn utxo(txid_byte: u8, vout: u32, script: &[u8], amount: u64) -> UTXO {
    UTXO { txid: bytes_to_hex(&[txid_byte; 32]), vout, scriptPubKey: bytes_to_hex(script), amount }
}

fn verify_sig(digest: &[u8], sig_with_type: &[u8], pk: &[u8]) -> bool {
    assert_eq!(*sig_with_type.last().unwrap(), 0x01);
    let der = &sig_with_type[..sig_with_type.len() - 1];
    let secp = secp256k1::Secp256k1::verification_only();
    let msg = secp256k1::Message::from_digest_slice(digest).unwrap();
    let sig = secp256k1::ecdsa::Signature::from_der(der).unwrap();
    let key = secp256k1::PublicKey::from_slice(pk).unwrap();
    secp.verify_ecdsa(&msg, &sig, &key).is_ok()
}

#[test]
fn dust_folding_keeps_large_change() {
    assert_eq!(change_policy(100_000, 90_000, 500), Ok((Some(9_500), 500)));
}

#[test]
fn dust_folding_folds_small_change() {
    assert_eq!(change_policy(100_000, 99_600, 300), Ok((None, 400)));
}

#[test]
fn dust_threshold_edges() {
    assert_eq!(change_policy(10_546, 10_000, 0), Ok((Some(546), 0)));
    assert_eq!(change_policy(10_545, 10_000, 0), Ok((None, 545)));
    assert_eq!(change_policy(1_000, 900, 100), Ok((None, 100)));
    assert_eq!(change_policy(u64::MAX as u128 * 2, 0, 0), Err(TxError::AmountOverflow));
    assert_eq!(change_policy(u64::MAX as u128 + 10, 0, u64::MAX), Err(TxError::AmountOverflow));
}

#[test]
fn insufficient_funds_policy() {
    assert_eq!(change_policy(1_000, 900, 200), Err(TxError::InsufficientFunds));
}

#[test]
fn insufficient_funds_fails_before_key_and_address() {
    let utxos = vec![utxo(1, 0, &[0x76], 1_000)];
    let r = create_and_sign(&utxos, "not an address", 900, 200, "not a key", true);
    assert_eq!(r.err(), Some(TxError::InsufficientFunds));
}

#[test]
fn sighash_is_deterministic() {
    let (_, pk) = signer(0x31);
    let h = hash160(&pk.serialize());
    let script = p2pkh_script(&h).unwrap();
    let utxos = vec![utxo(1, 0, &script, 10_000), utxo(2, 3, &script, 20_000)];
    let outs = serialize_outputs(&script, 25_000, None, &[]);
    let a = legacy_sighash(&utxos, 1, &outs);
    let b = legacy_sighash(&utxos, 1, &outs);
    assert_eq!(a, b);
    assert_eq!(a.len(), 32);
    assert_ne!(a, legacy_sighash(&utxos, 0, &outs));
    let c = bip143_sighash(&utxos, 0, &script, 10_000, &outs);
    let d = bip143_sighash(&utxos, 0, &script, 10_000, &outs);
    assert_eq!(c, d);
    assert_eq!(c.len(), 32);
    assert_ne!(c, bip143_sighash(&utxos, 0, &script, 10_001, &outs));
}

#[test]
fn end_to_end_legacy_to_segwit_destination() {
    let (sk, pk) = signer(0x07);
    let wif = secret_to_wif(&sk, Network::Mainnet);
    let own_script = p2pkh_script(&hash160(&pk.serialize())).unwrap();
    let (_, dest_pk) = signer(0x08);
    let dest = pubkey_to_bech32(&dest_pk, "mwc");
    let dest_script = p2wpkh_script(&hash160(&dest_pk.serialize())).unwrap();
    let utxos = vec![utxo(0xab, 1, &own_script, 50_000)];

    let result = create_and_sign(&utxos, &dest, 20_000, 1_000, &wif, true).unwrap();
    assert_eq!(result.effective_fee, 1_000);
    let raw = hex_to_bytes(&result.raw_tx);
    assert_eq!(result.vbytes as usize, (raw.len() + 3) / 4);
    let tx = parse_tx(&raw);
    assert!(!tx.segwit);
    assert_eq!(tx.inputs.len(), 1);
    assert_eq!(tx.outputs.len(), 2);
    assert_eq!(tx.outputs[0], (20_000, dest_script.clone()));
    assert_eq!(tx.outputs[1], (29_000, own_script.clone()));
    assert_eq!(tx.locktime, 0);
    let (outpoint, script_sig, seq) = &tx.inputs[0];
    let mut expected_outpoint = vec![0xab; 32];
    expected_outpoint.extend([1, 0, 0, 0]);
    assert_eq!(outpoint, &expected_outpoint);
    assert_eq!(*seq, 0xffff_ffff);

    // scriptSig: push signature, push public key
    let sig_len = script_sig[0] as usize;
    let sig = &script_sig[1..1 + sig_len];
    assert_eq!(script_sig[1 + sig_len], 33);
    assert_eq!(&script_sig[2 + sig_len..], &pk.serialize()[..]);

    let outs = serialize_outputs(&dest_script, 20_000, Some(29_000), &own_script);
    let digest = legacy_sighash(&utxos, 0, &outs);
    assert!(verify_sig(&digest, sig, &pk.serialize()));
}

#[test]
fn witness_lists_one_per_input() {
    let (sk, pk) = signer(0x09);
    let wif = secret_to_wif(&sk, Network::Testnet);
    let h = hash160(&pk.serialize());
    let legacy_script = p2pkh_script(&h).unwrap();
    let witness_script = p2wpkh_script(&h).unwrap();
    let utxos = vec![
        utxo(0x01, 0, &witness_script, 30_000),
        utxo(0x02, 5, &legacy_script, 40_000),
    ];
    let dest = pubkey_to_address(&signer(0x0a).1, Network::Testnet);
    let dest_script = p2pkh_script(&hash160(&signer(0x0a).1.serialize())).unwrap();

    let (raw, fee) = build_transaction(&utxos, &dest, 69_700, 200, &wif, Network::Testnet).unwrap();
    assert_eq!(fee, 300);
    let tx = parse_tx(&raw);
    assert!(tx.segwit);
    assert_eq!(tx.outputs, vec![(69_700, dest_script.clone())]);
    assert_eq!(tx.witnesses.len(), 2);
    assert_eq!(tx.witnesses[0].len(), 2);
    assert_eq!(tx.witnesses[1].len(), 0);
    assert_eq!(tx.witnesses[0][1], pk.serialize());
    // the witness input has an empty scriptSig, the legacy one a full one
    assert!(tx.inputs[0].1.is_empty());
    assert!(!tx.inputs[1].1.is_empty());

    let outs = serialize_outputs(&dest_script, 69_700, None, &[]);
    let code = p2pkh_script(&h).unwrap();
    let digest = bip143_sighash(&utxos, 0, &code, 30_000, &outs);
    assert!(verify_sig(&digest, &tx.witnesses[0][0], &pk.serialize()));
    let digest = legacy_sighash(&utxos, 1, &outs);
    let ss = &tx.inputs[1].1;
    let n = ss[0] as usize;
    assert!(verify_sig(&digest, &ss[1..1 + n], &pk.serialize()));
}

#[test]
fn construction_errors() {
    let (sk, pk) = signer(0x0b);
    let wif = secret_to_wif(&sk, Network::Mainnet);
    let h = hash160(&pk.serialize());
    let own = p2pkh_script(&h).unwrap();
    let dest = pubkey_to_address(&pk, Network::Mainnet);

    let bad_hex = vec![UTXO { txid: "zz".to_string(), vout: 0, scriptPubKey: bytes_to_hex(&own), amount: 5_000 }];
    assert_eq!(create_and_sign(&bad_hex, &dest, 1_000, 100, &wif, true).err(), Some(TxError::InvalidUtxo));

    let short_txid = vec![UTXO { txid: "00ff".to_string(), vout: 0, scriptPubKey: bytes_to_hex(&own), amount: 5_000 }];
    assert_eq!(create_and_sign(&short_txid, &dest, 1_000, 100, &wif, true).err(), Some(TxError::InvalidUtxo));

    let p2sh = mwc_wallet::address::p2sh_script(&h).unwrap();
    let p2sh_in = vec![utxo(3, 0, &p2sh, 5_000)];
    assert_eq!(create_and_sign(&p2sh_in, &dest, 1_000, 100, &wif, true).err(), Some(TxError::UnsupportedScript));

    let ok_in = vec![utxo(3, 0, &own, 5_000)];
    assert!(matches!(
        create_and_sign(&ok_in, "mwc1invalid", 1_000, 100, &wif, true).err(),
        Some(TxError::InvalidAddress(_))
    ));
    assert!(matches!(
        create_and_sign(&ok_in, &dest, 1_000, 100, "bad", true).err(),
        Some(TxError::InvalidKey(_))
    ));
    let huge = vec![utxo(3, 0, &own, u64::MAX), utxo(4, 0, &own, u64::MAX)];
    assert_eq!(create_and_sign(&huge, &dest, 0, 0, &wif, true).err(), Some(TxError::AmountOverflow));
}

#[test]
fn full_result_with_psbt_skeleton() {
    let (sk, pk) = signer(0x0c);
    let wif = secret_to_wif(&sk, Network::Mainnet);
    let own = p2pkh_script(&hash160(&pk.serialize())).unwrap();
    let dest = pubkey_to_address(&pk, Network::Mainnet);
    let utxos = vec![utxo(5, 0, &own, 100_000)];
    let r = create_signed_tx_full(&utxos, &dest, 90_000, 500, &wif, true).unwrap();
    assert_eq!(r.effective_fee(), 500);
    let raw = hex_to_bytes(&r.raw_tx());
    assert_eq!(r.vbytes() as usize, (raw.len() + 3) / 4);
    assert_eq!(parse_tx(&raw).outputs[1], (9_500, own.clone()));
    // magic, version 0, one input and two outputs
    assert_eq!(r.psbt(), "cHNidP8AAAAAAAAA");
    let _ = FeeError::Overflow;
}
