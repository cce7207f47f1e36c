use vstd::prelude::*;

use crate::tx::{utxo_hex_ok, utxo_script, utxo_txid, utxos_hex_ok, UTXO};
use crate::utils::{
    hex_to_bytes, le_bytes, push_all, push_le, push_varint, varint_bytes,
};

verus! {

// ---------------------------------------------------------------------
// Hashing
// ---------------------------------------------------------------------

/// What SHA-256 gives for `b`.
pub uninterp spec fn sha256_of(b: Seq<u8>) -> Seq<u8>;

/// What RIPEMD-160 gives for `b`.
pub uninterp spec fn ripemd160_of(b: Seq<u8>) -> Seq<u8>;

/// SHA-256 applied twice.
pub open spec fn double_sha256_of(b: Seq<u8>) -> Seq<u8> {
    sha256_of(sha256_of(b))
}

/// RIPEMD-160 of SHA-256.
pub open spec fn hash160_of(b: Seq<u8>) -> Seq<u8> {
    ripemd160_of(sha256_of(b))
}

/// The first four bytes of the double SHA-256.
pub open spec fn checksum_of(b: Seq<u8>) -> Seq<u8> {
    double_sha256_of(b).subrange(0, 4)
}

/// Relies on sha2's `Sha256::digest`: the 32-byte SHA-256 digest of `data`.
#[verifier::external_body]
fn sha256_digest(data: &[u8]) -> (r: Vec<u8>)
    ensures
        r@ == sha256_of(data@),
        r@.len() == 32,
{
    <sha2::Sha256 as sha2::Digest>::digest(data).to_vec()
}

/// Relies on ripemd's `Ripemd160::digest`: the 20-byte RIPEMD-160 digest of `data`.
#[verifier::external_body]
fn ripemd160_digest(data: &[u8]) -> (r: Vec<u8>)
    ensures
        r@ == ripemd160_of(data@),
        r@.len() == 20,
{
    <ripemd::Ripemd160 as ripemd::Digest>::digest(data).to_vec()
}

pub fn sha256(data: &[u8]) -> (r: Vec<u8>)
    ensures
        r@ == sha256_of(data@),
        r@.len() == 32,
{
    sha256_digest(data)
}

pub fn double_sha256(data: &[u8]) -> (r: Vec<u8>)
    ensures
        r@ == double_sha256_of(data@),
        r@.len() == 32,
{
    let first = sha256_digest(data);
    sha256_digest(first.as_slice())
}

pub fn hash160(data: &[u8]) -> (r: Vec<u8>)
    ensures
        r@ == hash160_of(data@),
        r@.len() == 20,
{
    let sha = sha256_digest(data);
    ripemd160_digest(sha.as_slice())
}

pub fn checksum(data: &[u8]) -> (r: Vec<u8>)
    ensures
        r@ == checksum_of(data@),
        r@.len() == 4,
{
    let h = double_sha256(data);
    let mut r: Vec<u8> = Vec::new();
    let mut i: usize = 0;
    while i < 4
        invariant
            i <= 4,
            h@.len() == 32,
            r@ == h@.subrange(0, i as int),
        decreases 4 - i,
    {
        r.push(h[i]);
        assert(h@.subrange(0, i + 1) =~= h@.subrange(0, i as int).push(h@[i as int]));
        i = i + 1;
    }
    r
}

// ---------------------------------------------------------------------
// Signature hashes
// ---------------------------------------------------------------------

/// Sequence number of every input.
pub open spec fn final_sequence() -> nat {
    0xffff_ffff
}

/// The outpoint of `u` as it is serialised: the transaction id in wire
/// (reversed) order, then the output index.
pub open spec fn outpoint(u: UTXO) -> Seq<u8> {
    utxo_txid(u).reverse() + le_bytes(u.vout as nat, 4)
}

/// One input of the legacy preimage; only the input being signed shows its
/// locking script, every other one an empty script.
pub open spec fn legacy_input(u: UTXO, signed: bool) -> Seq<u8> {
    outpoint(u) + (if signed {
        varint_bytes(utxo_script(u).len()) + utxo_script(u)
    } else {
        seq![0u8]
    }) + le_bytes(final_sequence(), 4)
}

/// The first `k` inputs of the legacy preimage for input `index`.
pub open spec fn legacy_inputs(utxos: Seq<UTXO>, index: int, k: int) -> Seq<u8>
    decreases k,
{
    if k <= 0 {
        Seq::empty()
    } else {
        legacy_inputs(utxos, index, k - 1) + legacy_input(utxos[k - 1], k - 1 == index)
    }
}

/// Legacy preimage: version, inputs, the serialised output set, lock time and
/// the SIGHASH_ALL type.
pub open spec fn legacy_preimage(utxos: Seq<UTXO>, index: int, outputs: Seq<u8>) -> Seq<u8> {
    le_bytes(1, 4) + varint_bytes(utxos.len()) + legacy_inputs(utxos, index, utxos.len() as int)
        + outputs + le_bytes(0, 4) + le_bytes(1, 4)
}

/// The concatenated outpoints of the first `k` inputs.
pub open spec fn prevouts(utxos: Seq<UTXO>, k: int) -> Seq<u8>
    decreases k,
{
    if k <= 0 {
        Seq::empty()
    } else {
        prevouts(utxos, k - 1) + outpoint(utxos[k - 1])
    }
}

/// The concatenated sequence numbers of `k` inputs.
pub open spec fn sequences(k: int) -> Seq<u8>
    decreases k,
{
    if k <= 0 {
        Seq::empty()
    } else {
        sequences(k - 1) + le_bytes(final_sequence(), 4)
    }
}

/// Segregated-witness preimage for input `index`.
pub open spec fn bip143_preimage(
    utxos: Seq<UTXO>,
    index: int,
    script_code: Seq<u8>,
    amount: u64,
    outputs: Seq<u8>,
) -> Seq<u8> {
    le_bytes(1, 4) + double_sha256_of(prevouts(utxos, utxos.len() as int)) + double_sha256_of(
        sequences(utxos.len() as int),
    ) + outpoint(utxos[index]) + varint_bytes(script_code.len()) + script_code + le_bytes(
        amount as nat,
        8,
    ) + le_bytes(final_sequence(), 4) + outputs + le_bytes(0, 4) + le_bytes(1, 4)
}

/// Appends the bytes of `b` in reverse order.
fn push_reversed(out: &mut Vec<u8>, b: &[u8])
    ensures
        final(out)@ == old(out)@ + b@.reverse(),
{
    let ghost start = old(out)@;
    let n = b.len();
    let mut i: usize = 0;
    while i < n
        invariant
            n == b@.len(),
            i <= n,
            out@ == start + Seq::new(i as nat, |j: int| b@[n - 1 - j]),
        decreases n - i,
    {
        out.push(b[n - 1 - i]);
        assert(Seq::new((i + 1) as nat, |j: int| b@[n - 1 - j]) =~= Seq::new(
            i as nat,
            |j: int| b@[n - 1 - j],
        ).push(b@[n - 1 - i]));
        i = i + 1;
    }
    assert(Seq::new(n as nat, |j: int| b@[n - 1 - j]) =~= b@.reverse());
}

/// Appends the outpoint of `u`.
pub(crate) fn push_outpoint(out: &mut Vec<u8>, u: &UTXO)
    requires
        utxo_hex_ok(*u),
    ensures
        final(out)@ == old(out)@ + outpoint(*u),
{
    let txid = hex_to_bytes(u.txid.as_str());
    push_reversed(out, txid.as_slice());
    push_le(out, u.vout as u64, 4);
    assert(final(out)@ =~= old(out)@ + outpoint(*u));
}

/// Legacy (pre-segwit) signature hash of input `input_index`, SIGHASH_ALL.
pub fn legacy_sighash(utxos: &[UTXO], input_index: usize, outputs_serialized: &[u8]) -> (r: Vec<u8>)
    requires
        utxos_hex_ok(utxos@),
    ensures
        r@ == double_sha256_of(legacy_preimage(utxos@, input_index as int, outputs_serialized@)),
        r@.len() == 32,
{
    let mut tx: Vec<u8> = Vec::new();
    push_le(&mut tx, 1, 4);
    push_varint(&mut tx, utxos.len());
    let ghost head = tx@;
    let mut i: usize = 0;
    while i < utxos.len()
        invariant
            i <= utxos@.len(),
            utxos_hex_ok(utxos@),
            tx@ == head + legacy_inputs(utxos@, input_index as int, i as int),
        decreases utxos@.len() - i,
    {
        let u = &utxos[i];
        assert(utxo_hex_ok(utxos@[i as int]));
        let ghost before = tx@;
        push_outpoint(&mut tx, u);
        if i == input_index {
            let script = hex_to_bytes(u.scriptPubKey.as_str());
            push_varint(&mut tx, script.len());
            push_all(&mut tx, script.as_slice());
        } else {
            tx.push(0);
        }
        push_le(&mut tx, 0xffff_ffff, 4);
        assert(tx@ =~= before + legacy_input(utxos@[i as int], i == input_index));
        i = i + 1;
    }
    push_all(&mut tx, outputs_serialized);
    push_le(&mut tx, 0, 4);
    push_le(&mut tx, 1, 4);
    assert(tx@ =~= legacy_preimage(utxos@, input_index as int, outputs_serialized@));
    double_sha256(tx.as_slice())
}

/// Segregated-witness (BIP143-style) signature hash of input `input_index`,
/// SIGHASH_ALL.
pub fn bip143_sighash(
    utxos: &[UTXO],
    input_index: usize,
    script_code: &[u8],
    amount: u64,
    outputs_serialized: &[u8],
) -> (r: Vec<u8>)
    requires
        utxos_hex_ok(utxos@),
        input_index < utxos@.len(),
    ensures
        r@ == double_sha256_of(
            bip143_preimage(
                utxos@,
                input_index as int,
                script_code@,
                amount,
                outputs_serialized@,
            ),
        ),
        r@.len() == 32,
{
    let mut all_prevouts: Vec<u8> = Vec::new();
    let mut all_sequences: Vec<u8> = Vec::new();
    let mut i: usize = 0;
    while i < utxos.len()
        invariant
            i <= utxos@.len(),
            utxos_hex_ok(utxos@),
            all_prevouts@ == prevouts(utxos@, i as int),
            all_sequences@ == sequences(i as int),
        decreases utxos@.len() - i,
    {
        assert(utxo_hex_ok(utxos@[i as int]));
        push_outpoint(&mut all_prevouts, &utxos[i]);
        push_le(&mut all_sequences, 0xffff_ffff, 4);
        i = i + 1;
    }
    let hash_prevouts = double_sha256(all_prevouts.as_slice());
    let hash_sequence = double_sha256(all_sequences.as_slice());
    let u = &utxos[input_index];
    assert(utxo_hex_ok(utxos@[input_index as int]));
    let mut pre: Vec<u8> = Vec::new();
    push_le(&mut pre, 1, 4);
    push_all(&mut pre, hash_prevouts.as_slice());
    push_all(&mut pre, hash_sequence.as_slice());
    push_outpoint(&mut pre, u);
    push_varint(&mut pre, script_code.len());
    push_all(&mut pre, script_code);
    push_le(&mut pre, amount, 8);
    push_le(&mut pre, 0xffff_ffff, 4);
    push_all(&mut pre, outputs_serialized);
    push_le(&mut pre, 0, 4);
    push_le(&mut pre, 1, 4);
    assert(pre@ =~= bip143_preimage(
        utxos@,
        input_index as int,
        script_code@,
        amount,
        outputs_serialized@,
    ));
    double_sha256(pre.as_slice())
}

/// Signature hashes are pure: two calls with the same unspent outputs, input
/// index, script code, amount and output set return the same 32-byte digest,
/// for the legacy and the segregated-witness algorithm alike.
pub proof fn lemma_sighash_deterministic(
    utxos: Seq<UTXO>,
    index: int,
    script_code: Seq<u8>,
    amount: u64,
    outputs: Seq<u8>,
    legacy_first: Seq<u8>,
    legacy_second: Seq<u8>,
    witness_first: Seq<u8>,
    witness_second: Seq<u8>,
)
    requires
        legacy_first == double_sha256_of(legacy_preimage(utxos, index, outputs)),
        legacy_second == double_sha256_of(legacy_preimage(utxos, index, outputs)),
        witness_first == double_sha256_of(
            bip143_preimage(utxos, index, script_code, amount, outputs),
        ),
        witness_second == double_sha256_of(
            bip143_preimage(utxos, index, script_code, amount, outputs),
        ),
    ensures
        legacy_first == legacy_second,
        witness_first == witness_second,
{
}

} // verus!
