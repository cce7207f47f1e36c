use vstd::prelude::*;

use crate::address::{
    address_script, p2pkh_script, p2pkh_script_of, pubkey_to_scriptpubkey,
    try_address_to_scriptpubkey, AddressError,
};
use crate::crypto::{
    bip143_preimage, bip143_sighash, double_sha256_of, final_sequence, hash160_of,
    legacy_preimage, legacy_sighash, outpoint, push_outpoint,
};
use crate::fees::{script_kind, strict_script_kind, ScriptType};
use crate::keys::{
    ecdsa_der_of, privkey_to_pubkey, pubkey_of, try_wif_to_privkey, wif_secret, KeyError,
    SecretKey,
};
use crate::network::Network;
use crate::utils::{
    bytes_to_hex, copy_range, hex_decode, hex_decoded, hex_encoded, is_hex, le_bytes, push_all,
    push_le, push_varint, varint_bytes,
};

verus! {

/// An unspent output offered for spending: the transaction id in display
/// (big-endian) hex, the output index, the locking script in hex and the
/// amount in the smallest unit.
#[allow(non_snake_case)]
#[derive(Clone, Debug)]
pub struct UTXO {
    pub txid: String,
    pub vout: u32,
    pub scriptPubKey: String,
    pub amount: u64,
}

/// Both hex fields of `u` decode.
pub open spec fn utxo_hex_ok(u: UTXO) -> bool {
    is_hex(u.txid@) && is_hex(u.scriptPubKey@)
}

/// Every entry of `utxos` has hex fields that decode.
pub open spec fn utxos_hex_ok(utxos: Seq<UTXO>) -> bool {
    forall|j: int| 0 <= j < utxos.len() ==> #[trigger] utxo_hex_ok(utxos[j])
}

/// The transaction id bytes of `u`, in display order.
pub open spec fn utxo_txid(u: UTXO) -> Seq<u8> {
    hex_decoded(u.txid@)
}

/// The locking script bytes of `u`.
pub open spec fn utxo_script(u: UTXO) -> Seq<u8> {
    hex_decoded(u.scriptPubKey@)
}

/// The hex fields of `u` decode and its transaction id is 32 bytes.
pub open spec fn utxo_valid(u: UTXO) -> bool {
    utxo_hex_ok(u) && utxo_txid(u).len() == 32
}

/// Every entry of `utxos` is valid.
pub open spec fn utxos_valid(utxos: Seq<UTXO>) -> bool {
    forall|j: int| 0 <= j < utxos.len() ==> #[trigger] utxo_valid(utxos[j])
}

/// `u` is locked by a script this wallet can sign for: P2PKH or P2WPKH.
pub open spec fn utxo_signable(u: UTXO) -> bool {
    script_kind(utxo_script(u)) == Some(ScriptType::P2PKH) || script_kind(utxo_script(u)) == Some(
        ScriptType::P2WPKH,
    )
}

/// Every entry of `utxos` is signable.
pub open spec fn utxos_signable(utxos: Seq<UTXO>) -> bool {
    forall|j: int| 0 <= j < utxos.len() ==> #[trigger] utxo_signable(utxos[j])
}

/// `u` is spent through the witness (P2WPKH).
pub open spec fn is_witness_input(u: UTXO) -> bool {
    script_kind(utxo_script(u)) == Some(ScriptType::P2WPKH)
}

/// Some entry of `utxos` is spent through the witness.
pub open spec fn any_witness(utxos: Seq<UTXO>) -> bool {
    exists|j: int| 0 <= j < utxos.len() && #[trigger] is_witness_input(utxos[j])
}

/// Sum of the amounts of the first `k` entries.
pub open spec fn total_in(utxos: Seq<UTXO>, k: int) -> nat
    decreases k,
{
    if k <= 0 {
        0
    } else {
        total_in(utxos, k - 1) + utxos[k - 1].amount as nat
    }
}

// ---------------------------------------------------------------------
// Fee and change policy
// ---------------------------------------------------------------------

/// Smallest change worth an output of its own; less is added to the fee.
pub const DUST_THRESHOLD: u64 = 546;

/// Why a transaction could not be built.
#[derive(Clone, Copy, Debug, PartialEq, Eq, Structural)]
pub enum TxError {
    /// The inputs hold less than amount plus fee.
    InsufficientFunds,
    /// The change output or the effective fee does not fit in a `u64`.
    AmountOverflow,
    /// The private key text was refused.
    InvalidKey(KeyError),
    /// The destination address was refused.
    InvalidAddress(AddressError),
    /// An unspent output has a field that is not hex, or a transaction id that is not 32 bytes.
    InvalidUtxo,
    /// An unspent output is locked by a script other than P2PKH or P2WPKH.
    UnsupportedScript,
}

/// The change left once amount and fee are paid (negative when funds fall short).
pub open spec fn change_amount(total: nat, amount: u64, fee: u64) -> int {
    total - amount - fee
}

/// Change output value (when change is kept) and effective fee, or why none exists.
pub open spec fn change_decision(total: nat, amount: u64, fee: u64) -> Result<
    (Option<u64>, u64),
    TxError,
> {
    let change = change_amount(total, amount, fee);
    if change < 0 {
        Err(TxError::InsufficientFunds)
    } else if change >= DUST_THRESHOLD {
        if change > u64::MAX {
            Err(TxError::AmountOverflow)
        } else {
            Ok((Some(change as u64), fee))
        }
    } else if fee + change > u64::MAX {
        Err(TxError::AmountOverflow)
    } else {
        Ok((None, (fee + change) as u64))
    }
}

/// Fee and change policy: change of at least the dust threshold becomes an
/// output; smaller change is folded into the fee, which is then the fee
/// actually paid.
pub fn change_policy(total_in: u128, amount: u64, fee: u64) -> (r: Result<(Option<u64>, u64), TxError>)
    ensures
        r == change_decision(total_in as nat, amount, fee),
{
    let need: u128 = amount as u128 + fee as u128;
    if total_in < need {
        return Err(TxError::InsufficientFunds);
    }
    let change: u128 = total_in - need;
    if change >= DUST_THRESHOLD as u128 {
        if change > u64::MAX as u128 {
            Err(TxError::AmountOverflow)
        } else {
            Ok((Some(change as u64), fee))
        }
    } else if fee as u128 + change > u64::MAX as u128 {
        Err(TxError::AmountOverflow)
    } else {
        Ok((None, (fee as u128 + change) as u64))
    }
}

// ---------------------------------------------------------------------
// Outputs
// ---------------------------------------------------------------------

/// One serialised output: value, then the length-prefixed script.
pub open spec fn output_bytes(value: u64, script: Seq<u8>) -> Seq<u8> {
    le_bytes(value as nat, 8) + varint_bytes(script.len()) + script
}

/// The serialised output set: count, the payment, then the change when kept.
pub open spec fn outputs_bytes(
    pay_script: Seq<u8>,
    amount: u64,
    change: Option<u64>,
    change_script: Seq<u8>,
) -> Seq<u8> {
    match change {
        Some(c) => varint_bytes(2) + output_bytes(amount, pay_script) + output_bytes(
            c,
            change_script,
        ),
        None => varint_bytes(1) + output_bytes(amount, pay_script),
    }
}

fn push_output(out: &mut Vec<u8>, value: u64, script: &[u8])
    ensures
        final(out)@ == old(out)@ + output_bytes(value, script@),
{
    push_le(out, value, 8);
    push_varint(out, script.len());
    push_all(out, script);
    assert(final(out)@ =~= old(out)@ + output_bytes(value, script@));
}

/// Serialises the output set.
pub fn serialize_outputs(pay_script: &[u8], amount: u64, change: Option<u64>, change_script: &[u8]) -> (r:
    Vec<u8>)
    ensures
        r@ == outputs_bytes(pay_script@, amount, change, change_script@),
{
    let mut out: Vec<u8> = Vec::new();
    match change {
        Some(c) => {
            push_varint(&mut out, 2);
            push_output(&mut out, amount, pay_script);
            push_output(&mut out, c, change_script);
        },
        None => {
            push_varint(&mut out, 1);
            push_output(&mut out, amount, pay_script);
        },
    }
    assert(out@ =~= outputs_bytes(pay_script@, amount, change, change_script@));
    out
}

// ---------------------------------------------------------------------
// Signing
// ---------------------------------------------------------------------

/// The P2PKH-shaped script code of a P2WPKH input: its 20-byte program in
/// the P2PKH template.
pub open spec fn witness_script_code(u: UTXO) -> Seq<u8> {
    p2pkh_script_of(utxo_script(u).subrange(2, 22))
}

/// The digest that input `i` signs: BIP143-style for a witness input, legacy otherwise.
pub open spec fn input_sighash(utxos: Seq<UTXO>, i: int, outputs: Seq<u8>) -> Seq<u8> {
    if is_witness_input(utxos[i]) {
        double_sha256_of(
            bip143_preimage(utxos, i, witness_script_code(utxos[i]), utxos[i].amount, outputs),
        )
    } else {
        double_sha256_of(legacy_preimage(utxos, i, outputs))
    }
}

/// The signature pushed for input `i`: DER signature, then the SIGHASH_ALL byte.
pub open spec fn input_signature(utxos: Seq<UTXO>, i: int, outputs: Seq<u8>, secret: Seq<u8>) -> Seq<
    u8,
> {
    ecdsa_der_of(input_sighash(utxos, i, outputs), secret) + seq![1u8]
}

/// Signs input `i`.
fn sign_input(utxos: &[UTXO], i: usize, outputs: &[u8], key: &SecretKey) -> (r: Vec<u8>)
    requires
        utxos_valid(utxos@),
        utxos_signable(utxos@),
        i < utxos@.len(),
    ensures
        r@ == input_signature(utxos@, i as int, outputs@, key@),
        r@.len() <= 73,
{
    assert(utxos_hex_ok(utxos@)) by {
        assert forall|j: int| 0 <= j < utxos@.len() implies #[trigger] utxo_hex_ok(utxos@[j]) by {
            assert(utxo_valid(utxos@[j]));
        }
    }
    assert(utxo_valid(utxos@[i as int]));
    assert(utxo_signable(utxos@[i as int]));
    let u = &utxos[i];
    let script = match hex_decode(u.scriptPubKey.as_str()) {
        Ok(s) => s,
        Err(_) => {
            assert(false);
            Vec::new()
        },
    };
    let hash = match strict_script_kind(script.as_slice()) {
        Some(ScriptType::P2WPKH) => {
            let program = copy_range(script.as_slice(), 2, 22);
            let code = match p2pkh_script(program.as_slice()) {
                Ok(c) => c,
                Err(_) => {
                    assert(false);
                    Vec::new()
                },
            };
            bip143_sighash(utxos, i, code.as_slice(), u.amount, outputs)
        },
        _ => legacy_sighash(utxos, i, outputs),
    };
    let mut sig = key.sign_digest(hash.as_slice());
    sig.push(0x01);
    sig
}

// ---------------------------------------------------------------------
// Transaction
// ---------------------------------------------------------------------

/// scriptSig of a legacy input: push of the signature, push of the public key.
pub open spec fn script_sig(sig: Seq<u8>, pubkey: Seq<u8>) -> Seq<u8> {
    seq![sig.len() as u8] + sig + seq![pubkey.len() as u8] + pubkey
}

/// Serialised input `i`: outpoint, then an empty script for a witness input
/// or the scriptSig for a legacy one, then the sequence.
pub open spec fn tx_input(
    utxos: Seq<UTXO>,
    i: int,
    outputs: Seq<u8>,
    secret: Seq<u8>,
    pubkey: Seq<u8>,
) -> Seq<u8> {
    outpoint(utxos[i]) + (if is_witness_input(utxos[i]) {
        seq![0u8]
    } else {
        varint_bytes(script_sig(input_signature(utxos, i, outputs, secret), pubkey).len())
            + script_sig(input_signature(utxos, i, outputs, secret), pubkey)
    }) + le_bytes(final_sequence(), 4)
}

/// The first `k` serialised inputs.
pub open spec fn tx_inputs(
    utxos: Seq<UTXO>,
    outputs: Seq<u8>,
    secret: Seq<u8>,
    pubkey: Seq<u8>,
    k: int,
) -> Seq<u8>
    decreases k,
{
    if k <= 0 {
        Seq::empty()
    } else {
        tx_inputs(utxos, outputs, secret, pubkey, k - 1) + tx_input(
            utxos,
            k - 1,
            outputs,
            secret,
            pubkey,
        )
    }
}

/// The witness stack of input `i`: signature and public key for a witness
/// input, nothing for a legacy one.
pub open spec fn witness_items(
    utxos: Seq<UTXO>,
    i: int,
    outputs: Seq<u8>,
    secret: Seq<u8>,
    pubkey: Seq<u8>,
) -> Seq<Seq<u8>> {
    if is_witness_input(utxos[i]) {
        seq![input_signature(utxos, i, outputs, secret), pubkey]
    } else {
        Seq::empty()
    }
}

/// The first `k` items of a witness stack, each length-prefixed.
pub open spec fn items_bytes(items: Seq<Seq<u8>>, k: int) -> Seq<u8>
    decreases k,
{
    if k <= 0 {
        Seq::empty()
    } else {
        items_bytes(items, k - 1) + varint_bytes(items[k - 1].len()) + items[k - 1]
    }
}

/// A serialised witness stack: item count, then the items.
pub open spec fn witness_list_bytes(items: Seq<Seq<u8>>) -> Seq<u8> {
    varint_bytes(items.len()) + items_bytes(items, items.len() as int)
}

/// The witness stacks of the first `k` inputs.
pub open spec fn witness_section(
    utxos: Seq<UTXO>,
    outputs: Seq<u8>,
    secret: Seq<u8>,
    pubkey: Seq<u8>,
    k: int,
) -> Seq<u8>
    decreases k,
{
    if k <= 0 {
        Seq::empty()
    } else {
        witness_section(utxos, outputs, secret, pubkey, k - 1) + witness_list_bytes(
            witness_items(utxos, k - 1, outputs, secret, pubkey),
        )
    }
}

/// The signed transaction: version, marker and flag when some input is a
/// witness input, inputs, outputs, the witness stacks of all inputs when
/// some input is a witness input, lock time.
pub open spec fn transaction_bytes(
    utxos: Seq<UTXO>,
    outputs: Seq<u8>,
    secret: Seq<u8>,
    pubkey: Seq<u8>,
) -> Seq<u8> {
    let n = utxos.len() as int;
    le_bytes(1, 4) + (if any_witness(utxos) {
        seq![0u8, 1u8]
    } else {
        Seq::empty()
    }) + varint_bytes(n as nat) + tx_inputs(utxos, outputs, secret, pubkey, n) + outputs + (
    if any_witness(utxos) {
        witness_section(utxos, outputs, secret, pubkey, n)
    } else {
        Seq::empty()
    }) + le_bytes(0, 4)
}

/// The transaction bytes and effective fee for a request, or why it fails.
/// Checks come in this order: funds, key, destination, unspent outputs,
/// their script types.
pub open spec fn built_transaction(
    utxos: Seq<UTXO>,
    to_address: Seq<char>,
    amount: u64,
    fee: u64,
    wif: Seq<char>,
    network: Network,
) -> Result<(Seq<u8>, u64), TxError> {
    match change_decision(total_in(utxos, utxos.len() as int), amount, fee) {
        Err(e) => Err(e),
        Ok((change, effective_fee)) => match wif_secret(wif, network) {
            Err(e) => Err(TxError::InvalidKey(e)),
            Ok(secret) => match address_script(to_address, network) {
                Err(e) => Err(TxError::InvalidAddress(e)),
                Ok(pay_script) => if !utxos_valid(utxos) {
                    Err(TxError::InvalidUtxo)
                } else if !utxos_signable(utxos) {
                    Err(TxError::UnsupportedScript)
                } else {
                    let pubkey = pubkey_of(secret);
                    let outputs = outputs_bytes(
                        pay_script,
                        amount,
                        change,
                        p2pkh_script_of(hash160_of(pubkey)),
                    );
                    Ok((transaction_bytes(utxos, outputs, secret, pubkey), effective_fee))
                },
            },
        },
    }
}

pub(crate) fn total_amount(utxos: &[UTXO]) -> (r: u128)
    ensures
        r == total_in(utxos@, utxos@.len() as int),
{
    let mut total: u128 = 0;
    let mut i: usize = 0;
    let n = utxos.len();
    while i < n
        invariant
            n == utxos@.len(),
            i <= n,
            total == total_in(utxos@, i as int),
            total <= i * 0xffff_ffff_ffff_ffffu128,
        decreases n - i,
    {
        total = total + utxos[i].amount as u128;
        i = i + 1;
    }
    total
}

fn check_utxos(utxos: &[UTXO]) -> (r: bool)
    ensures
        r == utxos_valid(utxos@),
{
    let mut i: usize = 0;
    while i < utxos.len()
        invariant
            i <= utxos@.len(),
            forall|j: int| 0 <= j < i ==> #[trigger] utxo_valid(utxos@[j]),
        decreases utxos@.len() - i,
    {
        let u = &utxos[i];
        match hex_decode(u.txid.as_str()) {
            Ok(t) => {
                if t.len() != 32 {
                    assert(!utxo_valid(utxos@[i as int]));
                    return false;
                }
            },
            Err(_) => {
                assert(!utxo_valid(utxos@[i as int]));
                return false;
            },
        }
        match hex_decode(u.scriptPubKey.as_str()) {
            Ok(_) => {},
            Err(_) => {
                assert(!utxo_valid(utxos@[i as int]));
                return false;
            },
        }
        i = i + 1;
    }
    true
}

/// Whether every input is signable, and whether some input is a witness input.
fn check_script_kinds(utxos: &[UTXO]) -> (r: (bool, bool))
    requires
        utxos_valid(utxos@),
    ensures
        r.0 == utxos_signable(utxos@),
        r.0 ==> r.1 == any_witness(utxos@),
{
    let mut witness = false;
    let mut i: usize = 0;
    while i < utxos.len()
        invariant
            i <= utxos@.len(),
            utxos_valid(utxos@),
            forall|j: int| 0 <= j < i ==> #[trigger] utxo_signable(utxos@[j]),
            witness == exists|j: int| 0 <= j < i && #[trigger] is_witness_input(utxos@[j]),
        decreases utxos@.len() - i,
    {
        assert(utxo_valid(utxos@[i as int]));
        let script = match hex_decode(utxos[i].scriptPubKey.as_str()) {
            Ok(s) => s,
            Err(_) => {
                assert(false);
                Vec::new()
            },
        };
        match strict_script_kind(script.as_slice()) {
            Some(ScriptType::P2PKH) => {
                assert(!is_witness_input(utxos@[i as int]));
                assert((exists|j: int| 0 <= j < i + 1 && #[trigger] is_witness_input(utxos@[j]))
                    == (exists|j: int| 0 <= j < i && #[trigger] is_witness_input(utxos@[j])));
            },
            Some(ScriptType::P2WPKH) => {
                assert(is_witness_input(utxos@[i as int]));
                witness = true;
            },
            _ => {
                assert(!utxo_signable(utxos@[i as int]));
                return (false, witness);
            },
        }
        i = i + 1;
    }
    (true, witness)
}

proof fn lemma_witness_list_two(a: Seq<u8>, b: Seq<u8>)
    ensures
        witness_list_bytes(seq![a, b]) == varint_bytes(2) + varint_bytes(a.len()) + a
            + varint_bytes(b.len()) + b,
{
    let items = seq![a, b];
    assert(items[0] == a);
    assert(items[1] == b);
    assert(items_bytes(items, 0) == Seq::<u8>::empty());
    assert(items_bytes(items, 1) =~= varint_bytes(a.len()) + a);
    assert(items_bytes(items, 2) =~= varint_bytes(a.len()) + a + varint_bytes(b.len()) + b);
    assert(witness_list_bytes(items) =~= varint_bytes(2) + varint_bytes(a.len()) + a
        + varint_bytes(b.len()) + b);
}

proof fn lemma_witness_list_empty()
    ensures
        witness_list_bytes(Seq::empty()) == seq![0u8],
{
    assert(witness_list_bytes(Seq::empty()) =~= seq![0u8]);
}

fn input_is_witness(u: &UTXO) -> (r: bool)
    requires
        utxo_valid(*u),
    ensures
        r == is_witness_input(*u),
{
    let script = match hex_decode(u.scriptPubKey.as_str()) {
        Ok(s) => s,
        Err(_) => {
            assert(false);
            Vec::new()
        },
    };
    match strict_script_kind(script.as_slice()) {
        Some(ScriptType::P2WPKH) => true,
        _ => false,
    }
}

/// Builds and signs the transaction that spends all of `utxos`: pays
/// `amount` to `to_address`, keeps change to the signer's P2PKH script when
/// it reaches the dust threshold, and returns the raw bytes with the fee
/// actually paid.
pub fn build_transaction(
    utxos: &[UTXO],
    to_address: &str,
    amount: u64,
    fee: u64,
    wif: &str,
    network: Network,
) -> (r: Result<(Vec<u8>, u64), TxError>)
    ensures
        match r {
            Ok((tx, effective_fee)) => built_transaction(
                utxos@,
                to_address@,
                amount,
                fee,
                wif@,
                network,
            ) == Ok::<(Seq<u8>, u64), TxError>((tx@, effective_fee)),
            Err(e) => built_transaction(utxos@, to_address@, amount, fee, wif@, network) == Err::<
                (Seq<u8>, u64),
                TxError,
            >(e),
        },
{
    let total = total_amount(utxos);
    let (change, effective_fee) = match change_policy(total, amount, fee) {
        Ok(d) => d,
        Err(e) => return Err(e),
    };
    let key = match try_wif_to_privkey(wif, network) {
        Ok(k) => k,
        Err(e) => return Err(TxError::InvalidKey(e)),
    };
    let pay_script = match try_address_to_scriptpubkey(to_address, network) {
        Ok(s) => s,
        Err(e) => return Err(TxError::InvalidAddress(e)),
    };
    if !check_utxos(utxos) {
        return Err(TxError::InvalidUtxo);
    }
    let (signable, witness) = check_script_kinds(utxos);
    if !signable {
        return Err(TxError::UnsupportedScript);
    }
    let pubkey = privkey_to_pubkey(&key);
    let pk = pubkey.serialize();
    let change_script = pubkey_to_scriptpubkey(&pubkey);
    let outputs = serialize_outputs(pay_script.as_slice(), amount, change, change_script.as_slice());
    let ghost secret = key@;
    let mut tx: Vec<u8> = Vec::new();
    push_le(&mut tx, 1, 4);
    if witness {
        tx.push(0x00);
        tx.push(0x01);
    }
    let n = utxos.len();
    push_varint(&mut tx, n);
    let ghost head = tx@;
    let mut wit: Vec<u8> = Vec::new();
    let mut i: usize = 0;
    while i < n
        invariant
            n == utxos@.len(),
            i <= n,
            utxos_valid(utxos@),
            utxos_signable(utxos@),
            secret == key@,
            pk@.len() == 33,
            tx@ == head + tx_inputs(utxos@, outputs@, secret, pk@, i as int),
            wit@ == witness_section(utxos@, outputs@, secret, pk@, i as int),
        decreases n - i,
    {
        let ghost tx_before = tx@;
        let ghost wit_before = wit@;
        let sig = sign_input(utxos, i, outputs.as_slice(), &key);
        assert(utxo_valid(utxos@[i as int]));
        push_outpoint(&mut tx, &utxos[i]);
        if input_is_witness(&utxos[i]) {
            tx.push(0x00);
            push_varint(&mut wit, 2);
            push_varint(&mut wit, sig.len());
            push_all(&mut wit, sig.as_slice());
            push_varint(&mut wit, pk.len());
            push_all(&mut wit, pk.as_slice());
            proof {
                lemma_witness_list_two(sig@, pk@);
            }
        } else {
            let mut ss: Vec<u8> = Vec::new();
            ss.push(sig.len() as u8);
            push_all(&mut ss, sig.as_slice());
            ss.push(pk.len() as u8);
            push_all(&mut ss, pk.as_slice());
            assert(ss@ =~= script_sig(sig@, pk@));
            push_varint(&mut tx, ss.len());
            push_all(&mut tx, ss.as_slice());
            wit.push(0x00);
            proof {
                lemma_witness_list_empty();
            }
        }
        push_le(&mut tx, 0xffff_ffff, 4);
        assert(tx@ =~= tx_before + tx_input(utxos@, i as int, outputs@, secret, pk@));
        assert(wit@ =~= wit_before + witness_list_bytes(
            witness_items(utxos@, i as int, outputs@, secret, pk@),
        ));
        i = i + 1;
    }
    push_all(&mut tx, outputs.as_slice());
    if witness {
        push_all(&mut tx, wit.as_slice());
    }
    push_le(&mut tx, 0, 4);
    assert(tx@ =~= transaction_bytes(utxos@, outputs@, secret, pk@));
    Ok((tx, effective_fee))
}

/// Funds are checked first: when the inputs hold less than amount plus fee,
/// construction fails with `InsufficientFunds` whatever the key, destination
/// and unspent outputs, so nothing is signed.
pub proof fn lemma_insufficient_funds_first(
    utxos: Seq<UTXO>,
    to_address: Seq<char>,
    amount: u64,
    fee: u64,
    wif: Seq<char>,
    network: Network,
)
    requires
        total_in(utxos, utxos.len() as int) < amount + fee,
    ensures
        built_transaction(utxos, to_address, amount, fee, wif, network) == Err::<
            (Seq<u8>, u64),
            TxError,
        >(TxError::InsufficientFunds),
{
}

/// Witness layout: when some input is a witness input, the transaction
/// carries the marker and flag and, after the outputs, one witness list per
/// input in input order; a legacy input's list is empty and a witness
/// input's list holds its signature and public key.
pub proof fn lemma_witness_lists(
    utxos: Seq<UTXO>,
    outputs: Seq<u8>,
    secret: Seq<u8>,
    pubkey: Seq<u8>,
)
    requires
        any_witness(utxos),
    ensures
        transaction_bytes(utxos, outputs, secret, pubkey) == le_bytes(1, 4) + seq![0u8, 1u8]
            + varint_bytes(utxos.len()) + tx_inputs(
            utxos,
            outputs,
            secret,
            pubkey,
            utxos.len() as int,
        ) + outputs + witness_section(utxos, outputs, secret, pubkey, utxos.len() as int)
            + le_bytes(0, 4),
        forall|k: int|
            0 <= k < utxos.len() ==> #[trigger] witness_section(utxos, outputs, secret, pubkey, k + 1)
                == witness_section(utxos, outputs, secret, pubkey, k) + witness_list_bytes(
                witness_items(utxos, k, outputs, secret, pubkey),
            ),
        forall|k: int|
            0 <= k < utxos.len() ==> (#[trigger] witness_items(utxos, k, outputs, secret, pubkey)
                == if is_witness_input(utxos[k]) {
                seq![input_signature(utxos, k, outputs, secret), pubkey]
            } else {
                Seq::<Seq<u8>>::empty()
            }),
{
}

/// A transaction without witness inputs is serialised the legacy way: no
/// marker, flag or witness section.
pub proof fn lemma_legacy_layout(utxos: Seq<UTXO>, outputs: Seq<u8>, secret: Seq<u8>, pubkey: Seq<u8>)
    requires
        !any_witness(utxos),
    ensures
        transaction_bytes(utxos, outputs, secret, pubkey) == le_bytes(1, 4) + varint_bytes(
            utxos.len(),
        ) + tx_inputs(utxos, outputs, secret, pubkey, utxos.len() as int) + outputs + le_bytes(
            0,
            4,
        ),
{
    assert(transaction_bytes(utxos, outputs, secret, pubkey) =~= le_bytes(1, 4) + varint_bytes(
        utxos.len(),
    ) + tx_inputs(utxos, outputs, secret, pubkey, utxos.len() as int) + outputs + le_bytes(0, 4));
}

/// The outcome of a successful construction: the raw transaction in hex, its
/// virtual size (serialised length divided by four, rounded up) and the fee
/// actually paid.
pub struct TxResult {
    pub raw_tx: String,
    pub vbytes: u64,
    pub effective_fee: u64,
}

/// Builds and signs a transaction, reporting it as hex with its virtual size
/// and effective fee.
pub fn create_and_sign(
    utxos: &[UTXO],
    to_address: &str,
    amount: u64,
    fee: u64,
    wif: &str,
    mainnet: bool,
) -> (r: Result<TxResult, TxError>)
    ensures
        ({
            let network = if mainnet {
                Network::Mainnet
            } else {
                Network::Testnet
            };
            let built = built_transaction(utxos@, to_address@, amount, fee, wif@, network);
            match r {
                Ok(t) => {
                    &&& built is Ok
                    &&& t.raw_tx@ == hex_encoded(built->Ok_0.0)
                    &&& t.vbytes == (built->Ok_0.0.len() + 3) / 4
                    &&& t.effective_fee == built->Ok_0.1
                },
                Err(e) => built == Err::<(Seq<u8>, u64), TxError>(e),
            }
        }),
{
    let network = Network::from_flag(mainnet);
    match build_transaction(utxos, to_address, amount, fee, wif, network) {
        Ok((tx, effective_fee)) => {
            let vbytes = ((tx.len() as u128 + 3) / 4) as u64;
            Ok(TxResult { raw_tx: bytes_to_hex(tx.as_slice()), vbytes, effective_fee })
        },
        Err(e) => Err(e),
    }
}

} // verus!
