//! Wallet transaction engine: script templates, addresses, keys, fee and
//! change policy, signature hashes and the assembly of fully signed legacy
//! and segwit transactions.
use vstd::prelude::*;

pub mod address;
pub mod bech32;
pub mod crypto;
pub mod fees;
pub mod keys;
pub mod network;
pub mod tx;
pub mod utils;

use crate::address::{base58_address_script, p2pkh_address_bytes, pubkey_to_address, pubkey_to_bech32};
use crate::bech32::{bech32_of, hrp_valid, is_lower_ascii, is_upper_ascii, segwit_data};
use crate::crypto::hash160_of;
use crate::fees::{estimate_fee_checked, fee_for, psbt_skeleton_bytes, psbt_skeleton_bytes_of, string_views};
use crate::keys::{is_secret_key, privkey_to_pubkey, pubkey_of, try_wif_to_privkey, wif_secret, KeyError};
use crate::network::{spec_bech32_hrp, Network};
use crate::tx::{
    built_transaction, change_decision, create_and_sign, total_amount, total_in, TxError, UTXO,
};
use crate::utils::{base58_of, base64_of, bytes_to_base64, hex_encoded};

verus! {

/// The human-readable parts of both networks pass Bech32's check.
pub proof fn lemma_network_hrp_valid(network: Network)
    ensures
        hrp_valid(spec_bech32_hrp(network)),
{
    let h = spec_bech32_hrp(network);
    assert(is_lower_ascii(h[1]));
    assert(forall|i: int| 0 <= i < h.len() ==> !is_upper_ascii(#[trigger] h[i]));
}

/// A new random private key in WIF for the selected network.
pub fn generate_wif(mainnet: bool) -> (r: String)
    ensures
        exists|k: Seq<u8>|
            is_secret_key(k) && r@ == #[trigger] crate::keys::wif_text(
                Network::from_flag_spec(mainnet),
                k,
            ),
{
    crate::keys::generate_wif(Network::from_flag(mainnet))
}

/// The legacy address of the key that a WIF string carries.
pub fn wif_to_address(wif: &str, mainnet: bool) -> (r: Result<String, KeyError>)
    ensures
        match r {
            Ok(a) => wif_secret(wif@, Network::from_flag_spec(mainnet)) is Ok && a@ == base58_of(
                p2pkh_address_bytes(
                    Network::from_flag_spec(mainnet),
                    pubkey_of(wif_secret(wif@, Network::from_flag_spec(mainnet))->Ok_0),
                ),
            ),
            Err(e) => wif_secret(wif@, Network::from_flag_spec(mainnet)) == Err::<Seq<u8>, KeyError>(
                e,
            ),
        },
{
    let net = Network::from_flag(mainnet);
    let privkey = match try_wif_to_privkey(wif, net) {
        Ok(k) => k,
        Err(e) => return Err(e),
    };
    let pubkey = privkey_to_pubkey(&privkey);
    Ok(pubkey_to_address(&pubkey, net))
}

/// The Bech32 P2WPKH address of the key that a WIF string carries.
pub fn pubkey_to_bech32_wasm(wif: &str, mainnet: bool) -> (r: Result<String, KeyError>)
    ensures
        match r {
            Ok(a) => wif_secret(wif@, Network::from_flag_spec(mainnet)) is Ok && a@ == bech32_of(
                spec_bech32_hrp(Network::from_flag_spec(mainnet)),
                segwit_data(
                    0,
                    hash160_of(pubkey_of(wif_secret(wif@, Network::from_flag_spec(mainnet))->Ok_0)),
                ),
            ),
            Err(e) => wif_secret(wif@, Network::from_flag_spec(mainnet)) == Err::<Seq<u8>, KeyError>(
                e,
            ),
        },
{
    let net = Network::from_flag(mainnet);
    let privkey = match try_wif_to_privkey(wif, net) {
        Ok(k) => k,
        Err(e) => return Err(e),
    };
    let pubkey = privkey_to_pubkey(&privkey);
    proof {
        lemma_network_hrp_valid(net);
    }
    Ok(pubkey_to_bech32(&pubkey, net.bech32_hrp()))
}

/// Validates a Base58Check P2PKH or P2SH address of the selected network.
pub fn validate_address(addr: &str, mainnet: bool) -> (r: bool)
    ensures
        r == base58_address_script(addr@, Network::from_flag_spec(mainnet)) is Ok,
{
    crate::address::validate_address(addr, Network::from_flag(mainnet))
}

// ---------------------------------------------------------------------
// Fee estimate from JSON script lists
// ---------------------------------------------------------------------

/// What serde_json makes of `s` read as a JSON array of strings.
pub uninterp spec fn json_string_list_of(s: Seq<char>) -> Option<Seq<Seq<char>>>;

#[verifier::external_type_specification]
#[verifier::external_body]
pub struct ExJsonError(serde_json::Error);

/// Relies on `serde_json::from_str::<Vec<String>>`: a JSON array of strings.
#[verifier::external_body]
fn parse_string_list(s: &str) -> (r: Result<Vec<String>, serde_json::Error>)
    ensures
        match r {
            Ok(v) => json_string_list_of(s@) == Some(string_views(v@)),
            Err(_) => json_string_list_of(s@) is None,
        },
{
    serde_json::from_str(s)
}

/// Why a fee estimate from JSON failed.
#[derive(Clone, Copy, Debug, PartialEq, Eq, Structural)]
pub enum FeeError {
    /// The input scripts are not a JSON array of strings.
    InvalidInputScripts,
    /// The output scripts are not a JSON array of strings.
    InvalidOutputScripts,
    /// The fee does not fit in a `u64`.
    Overflow,
}

/// The fee estimate for two JSON script lists, or why there is none.
pub open spec fn fee_from_json(inputs: Seq<char>, outputs: Seq<char>, rate: u64) -> Result<
    u64,
    FeeError,
> {
    match json_string_list_of(inputs) {
        None => Err(FeeError::InvalidInputScripts),
        Some(ins) => match json_string_list_of(outputs) {
            None => Err(FeeError::InvalidOutputScripts),
            Some(outs) => if fee_for(ins, outs, rate) > u64::MAX {
                Err(FeeError::Overflow)
            } else {
                Ok(fee_for(ins, outs, rate) as u64)
            },
        },
    }
}

/// Fee estimate from JSON arrays of input and output scripts (hex).
pub fn estimate_fee_wasm(input_scripts_json: &str, output_scripts_json: &str, sat_per_byte: u64) -> (r:
    Result<u64, FeeError>)
    ensures
        r == fee_from_json(input_scripts_json@, output_scripts_json@, sat_per_byte),
{
    let input_scripts = match parse_string_list(input_scripts_json) {
        Ok(v) => v,
        Err(_) => return Err(FeeError::InvalidInputScripts),
    };
    let output_scripts = match parse_string_list(output_scripts_json) {
        Ok(v) => v,
        Err(_) => return Err(FeeError::InvalidOutputScripts),
    };
    match estimate_fee_checked(input_scripts.as_slice(), output_scripts.as_slice(), sat_per_byte) {
        Some(f) => Ok(f),
        None => Err(FeeError::Overflow),
    }
}

/// The locking scripts (hex) of the unspent outputs.
pub open spec fn utxo_script_texts(utxos: Seq<UTXO>) -> Seq<Seq<char>> {
    utxos.map_values(|u: UTXO| u.scriptPubKey@)
}

/// The fee estimate for spending `utxos` into the JSON list of output
/// scripts, or why there is none.
pub open spec fn fee_from_utxos(utxos: Seq<UTXO>, outputs: Seq<char>, rate: u64) -> Result<
    u64,
    FeeError,
> {
    match json_string_list_of(outputs) {
        None => Err(FeeError::InvalidOutputScripts),
        Some(outs) => if fee_for(utxo_script_texts(utxos), outs, rate) > u64::MAX {
            Err(FeeError::Overflow)
        } else {
            Ok(fee_for(utxo_script_texts(utxos), outs, rate) as u64)
        },
    }
}

/// Fee estimate for spending `utxos`, whose locking scripts are the inputs,
/// into a JSON array of output scripts (hex).
pub fn estimate_fee_from_utxos_wasm(utxos: &[UTXO], output_scripts_json: &str, sat_per_byte: u64) -> (r:
    Result<u64, FeeError>)
    ensures
        r == fee_from_utxos(utxos@, output_scripts_json@, sat_per_byte),
{
    let mut input_scripts: Vec<String> = Vec::new();
    let mut i: usize = 0;
    while i < utxos.len()
        invariant
            i <= utxos@.len(),
            string_views(input_scripts@) == utxo_script_texts(utxos@).subrange(0, i as int),
        decreases utxos@.len() - i,
    {
        let ghost before = input_scripts@;
        input_scripts.push(utxos[i].scriptPubKey.clone());
        assert(string_views(input_scripts@) =~= string_views(before).push(
            utxos@[i as int].scriptPubKey@,
        ));
        assert(utxo_script_texts(utxos@).subrange(0, i + 1) =~= utxo_script_texts(utxos@).subrange(
            0,
            i as int,
        ).push(utxos@[i as int].scriptPubKey@));
        i = i + 1;
    }
    assert(utxo_script_texts(utxos@).subrange(0, utxos@.len() as int) =~= utxo_script_texts(
        utxos@,
    ));
    let output_scripts = match parse_string_list(output_scripts_json) {
        Ok(v) => v,
        Err(_) => return Err(FeeError::InvalidOutputScripts),
    };
    match estimate_fee_checked(input_scripts.as_slice(), output_scripts.as_slice(), sat_per_byte) {
        Some(f) => Ok(f),
        None => Err(FeeError::Overflow),
    }
}

// ---------------------------------------------------------------------
// Signed transaction with PSBT skeleton
// ---------------------------------------------------------------------

/// A signed transaction: raw hex, the PSBT skeleton in base64, virtual size
/// and the fee actually paid.
pub struct WasmTxResult {
    raw_tx: String,
    psbt: String,
    vbytes: u64,
    effective_fee: u64,
}

impl WasmTxResult {
    pub closed spec fn spec_raw_tx(&self) -> Seq<char> {
        self.raw_tx@
    }

    pub closed spec fn spec_psbt(&self) -> Seq<char> {
        self.psbt@
    }

    pub closed spec fn spec_vbytes(&self) -> u64 {
        self.vbytes
    }

    pub closed spec fn spec_effective_fee(&self) -> u64 {
        self.effective_fee
    }

    pub fn raw_tx(&self) -> (r: String)
        ensures
            r@ == self.spec_raw_tx(),
    {
        self.raw_tx.clone()
    }

    pub fn psbt(&self) -> (r: String)
        ensures
            r@ == self.spec_psbt(),
    {
        self.psbt.clone()
    }

    pub fn vbytes(&self) -> (r: u64)
        ensures
            r == self.spec_vbytes(),
    {
        self.vbytes
    }

    pub fn effective_fee(&self) -> (r: u64)
        ensures
            r == self.spec_effective_fee(),
    {
        self.effective_fee
    }
}

/// Number of outputs: the payment, plus the change when it is kept.
pub open spec fn output_count(utxos: Seq<UTXO>, amount: u64, fee: u64) -> nat {
    match change_decision(total_in(utxos, utxos.len() as int), amount, fee) {
        Ok((Some(_), _)) => 2,
        _ => 1,
    }
}

/// Builds and signs a transaction; reports its hex, the PSBT skeleton for
/// its inputs and outputs in base64, its virtual size and the fee paid.
pub fn create_signed_tx_full(
    utxos: &[UTXO],
    to_address: &str,
    amount: u64,
    fee: u64,
    wif: &str,
    mainnet: bool,
) -> (r: Result<WasmTxResult, TxError>)
    requires
        utxos@.len() < usize::MAX / 4,
    ensures
        ({
            let built = built_transaction(
                utxos@,
                to_address@,
                amount,
                fee,
                wif@,
                Network::from_flag_spec(mainnet),
            );
            match r {
                Ok(t) => {
                    &&& built is Ok
                    &&& t.spec_raw_tx() == hex_encoded(built->Ok_0.0)
                    &&& t.spec_vbytes() == (built->Ok_0.0.len() + 3) / 4
                    &&& t.spec_effective_fee() == built->Ok_0.1
                    &&& t.spec_psbt() == base64_of(
                        psbt_skeleton_bytes_of(utxos.len() as nat, output_count(utxos@, amount, fee)),
                    )
                },
                Err(e) => built == Err::<(Seq<u8>, u64), TxError>(e),
            }
        }),
{
    let result = match create_and_sign(utxos, to_address, amount, fee, wif, mainnet) {
        Ok(t) => t,
        Err(e) => return Err(e),
    };
    let n_outputs: usize = match crate::tx::change_policy(total_amount(utxos), amount, fee) {
        Ok((Some(_), _)) => 2,
        _ => 1,
    };
    let skeleton = psbt_skeleton_bytes(utxos.len(), n_outputs);
    proof {
        crate::utils::lemma_le_bytes_len(0, 4);
    }
    Ok(
        WasmTxResult {
            raw_tx: result.raw_tx,
            psbt: bytes_to_base64(skeleton.as_slice()),
            vbytes: result.vbytes,
            effective_fee: result.effective_fee,
        },
    )
}

} // verus!
