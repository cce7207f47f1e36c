use vstd::prelude::*;

use crate::network::str_starts_with;
use crate::utils::{hex_decode, hex_decoded, is_hex, le_bytes, push_le};

verus! {

/// Supported script types.
#[derive(Clone, Copy, Debug, PartialEq, Eq, Structural)]
pub enum ScriptType {
    P2PKH,
    P2SH,
    P2WPKH,
}

/// `b` begins `OP_0 <push 20>`.
pub open spec fn has_p2wpkh_shape(b: Seq<u8>) -> bool {
    b.len() >= 2 && b[0] == 0x00 && b[1] == 0x14
}

/// `b` begins `OP_HASH160 <push 20>` and ends `OP_EQUAL`.
pub open spec fn has_p2sh_shape(b: Seq<u8>) -> bool {
    b.len() >= 3 && b[0] == 0xa9 && b[1] == 0x14 && b[b.len() - 1] == 0x87
}

/// `b` begins `OP_DUP OP_HASH160 <push 20>` and ends `OP_EQUALVERIFY OP_CHECKSIG`.
pub open spec fn has_p2pkh_shape(b: Seq<u8>) -> bool {
    b.len() >= 5 && b[0] == 0x76 && b[1] == 0xa9 && b[2] == 0x14 && b[b.len() - 2] == 0x88
        && b[b.len() - 1] == 0xac
}

/// Classification used for sizing: a script that matches no pattern counts as P2PKH.
pub open spec fn classify(b: Seq<u8>) -> ScriptType {
    if has_p2wpkh_shape(b) {
        ScriptType::P2WPKH
    } else if has_p2sh_shape(b) {
        ScriptType::P2SH
    } else {
        ScriptType::P2PKH
    }
}

/// Strict classification: the exact standard templates, nothing for any other script.
pub open spec fn script_kind(b: Seq<u8>) -> Option<ScriptType> {
    if b.len() == 22 && has_p2wpkh_shape(b) {
        Some(ScriptType::P2WPKH)
    } else if b.len() == 23 && has_p2sh_shape(b) {
        Some(ScriptType::P2SH)
    } else if b.len() == 25 && has_p2pkh_shape(b) {
        Some(ScriptType::P2PKH)
    } else {
        None
    }
}

/// The script bytes behind hex text; text that is not hex counts as an empty script.
pub open spec fn script_bytes_of_hex(s: Seq<char>) -> Seq<u8> {
    if is_hex(s) {
        hex_decoded(s)
    } else {
        Seq::empty()
    }
}

/// Classifies script bytes; a script that matches no pattern counts as P2PKH.
pub fn classify_script(b: &[u8]) -> (r: ScriptType)
    ensures
        r == classify(b@),
{
    let n = b.len();
    if n >= 2 && b[0] == 0x00 && b[1] == 0x14 {
        ScriptType::P2WPKH
    } else if n >= 3 && b[0] == 0xa9 && b[1] == 0x14 && b[n - 1] == 0x87 {
        ScriptType::P2SH
    } else {
        ScriptType::P2PKH
    }
}

/// Classifies script bytes against the exact standard templates.
pub fn strict_script_kind(b: &[u8]) -> (r: Option<ScriptType>)
    ensures
        r == script_kind(b@),
{
    let n = b.len();
    if n == 22 && b[0] == 0x00 && b[1] == 0x14 {
        Some(ScriptType::P2WPKH)
    } else if n == 23 && b[0] == 0xa9 && b[1] == 0x14 && b[22] == 0x87 {
        Some(ScriptType::P2SH)
    } else if n == 25 && b[0] == 0x76 && b[1] == 0xa9 && b[2] == 0x14 && b[23] == 0x88 && b[24]
        == 0xac {
        Some(ScriptType::P2PKH)
    } else {
        None
    }
}

/// Detect input type from scriptPubKey hex.
pub fn detect_input_type(script_hex: &str) -> (r: ScriptType)
    ensures
        r == classify(script_bytes_of_hex(script_hex@)),
{
    match hex_decode(script_hex) {
        Ok(b) => classify_script(b.as_slice()),
        Err(_) => classify_script(&[]),
    }
}

/// Detect output type from scriptPubKey hex.
pub fn detect_output_type(script_hex: &str) -> (r: ScriptType)
    ensures
        r == classify(script_bytes_of_hex(script_hex@)),
{
    match hex_decode(script_hex) {
        Ok(b) => classify_script(b.as_slice()),
        Err(_) => classify_script(&[]),
    }
}

// ---------------------------------------------------------------------
// Weight and fee
// ---------------------------------------------------------------------

/// Weight units of an input of type `t`.
pub open spec fn input_weight(t: ScriptType) -> nat {
    match t {
        ScriptType::P2PKH => 592,
        ScriptType::P2SH => 363,
        ScriptType::P2WPKH => 271,
    }
}

/// Weight units of an output of type `t`.
pub open spec fn output_weight(t: ScriptType) -> nat {
    match t {
        ScriptType::P2PKH => 136,
        ScriptType::P2SH => 128,
        ScriptType::P2WPKH => 124,
    }
}

/// Weight units of version, lock time and the count varints.
pub open spec fn overhead_weight() -> nat {
    40
}

/// The texts of a sequence of strings.
pub open spec fn string_views(s: Seq<String>) -> Seq<Seq<char>> {
    s.map_values(|x: String| x@)
}

/// Total input weight of the first `k` input scripts (hex).
pub open spec fn inputs_weight(scripts: Seq<Seq<char>>, k: int) -> nat
    decreases k,
{
    if k <= 0 {
        0
    } else {
        inputs_weight(scripts, k - 1) + input_weight(classify(script_bytes_of_hex(scripts[k - 1])))
    }
}

/// Total output weight of the first `k` output scripts (hex).
pub open spec fn outputs_weight(scripts: Seq<Seq<char>>, k: int) -> nat
    decreases k,
{
    if k <= 0 {
        0
    } else {
        outputs_weight(scripts, k - 1) + output_weight(
            classify(script_bytes_of_hex(scripts[k - 1])),
        )
    }
}

/// Weight of a transaction with these input and output scripts.
pub open spec fn tx_weight(inputs: Seq<Seq<char>>, outputs: Seq<Seq<char>>) -> nat {
    inputs_weight(inputs, inputs.len() as int) + outputs_weight(outputs, outputs.len() as int)
        + overhead_weight()
}

/// Virtual size: weight divided by four, rounded up.
pub open spec fn vsize_of_weight(w: nat) -> nat {
    (w + 3) / 4
}

/// The fee at `rate` per virtual byte.
pub open spec fn fee_for(inputs: Seq<Seq<char>>, outputs: Seq<Seq<char>>, rate: u64) -> nat {
    vsize_of_weight(tx_weight(inputs, outputs)) * (rate as nat)
}

/// Estimated fee, or nothing when it does not fit in a `u64`.
pub fn estimate_fee_checked(input_scripts: &[String], output_scripts: &[String], sat_per_byte: u64) -> (r:
    Option<u64>)
    ensures
        match r {
            Some(f) => f == fee_for(string_views(input_scripts@), string_views(output_scripts@), sat_per_byte),
            None => fee_for(string_views(input_scripts@), string_views(output_scripts@), sat_per_byte) > u64::MAX,
        },
{
    let mut weight: u128 = 0;
    let mut i: usize = 0;
    while i < input_scripts.len()
        invariant
            i <= input_scripts@.len(),
            weight == inputs_weight(string_views(input_scripts@), i as int),
            weight <= 592 * i,
        decreases input_scripts@.len() - i,
    {
        let w: u128 = match detect_input_type(input_scripts[i].as_str()) {
            ScriptType::P2PKH => 592,
            ScriptType::P2SH => 363,
            ScriptType::P2WPKH => 271,
        };
        weight = weight + w;
        i = i + 1;
    }
    let ghost in_weight = weight;
    let n_in = input_scripts.len();
    let mut j: usize = 0;
    while j < output_scripts.len()
        invariant
            j <= output_scripts@.len(),
            weight == in_weight + outputs_weight(string_views(output_scripts@), j as int),
            in_weight == inputs_weight(
                string_views(input_scripts@),
                input_scripts@.len() as int,
            ),
            n_in == input_scripts@.len(),
            in_weight <= 592 * n_in,
            weight <= in_weight + 136 * j,
        decreases output_scripts@.len() - j,
    {
        let w: u128 = match detect_output_type(output_scripts[j].as_str()) {
            ScriptType::P2PKH => 136,
            ScriptType::P2SH => 128,
            ScriptType::P2WPKH => 124,
        };
        weight = weight + w;
        j = j + 1;
    }
    weight = weight + 40;
    let vbytes: u128 = (weight + 3) / 4;
    assert(vbytes == vsize_of_weight(
        tx_weight(string_views(input_scripts@), string_views(output_scripts@)),
    ));
    if sat_per_byte == 0 {
        assert(fee_for(string_views(input_scripts@), string_views(output_scripts@), sat_per_byte) == 0) by (nonlinear_arith)
            requires
                sat_per_byte == 0,
                fee_for(string_views(input_scripts@), string_views(output_scripts@), sat_per_byte) == vbytes * sat_per_byte,
        ;
        return Some(0);
    }
    if vbytes > u64::MAX as u128 / sat_per_byte as u128 {
        assert(vbytes * sat_per_byte > u64::MAX) by (nonlinear_arith)
            requires
                vbytes > u64::MAX as u128 / sat_per_byte as u128,
                sat_per_byte > 0,
        ;
        return None;
    }
    assert(vbytes * sat_per_byte <= u64::MAX) by (nonlinear_arith)
        requires
            vbytes <= u64::MAX as u128 / sat_per_byte as u128,
            sat_per_byte > 0,
    ;
    Some((vbytes * sat_per_byte as u128) as u64)
}

/// Estimated fee in the smallest unit, from the weight of each classified
/// input and output script (hex) at `sat_per_byte` per virtual byte.
pub fn estimate_fee(input_scripts: &[String], output_scripts: &[String], sat_per_byte: u64) -> (r: u64)
    requires
        fee_for(string_views(input_scripts@), string_views(output_scripts@), sat_per_byte) <= u64::MAX,
    ensures
        r == fee_for(string_views(input_scripts@), string_views(output_scripts@), sat_per_byte),
{
    match estimate_fee_checked(input_scripts, output_scripts, sat_per_byte) {
        Some(f) => f,
        None => {
            assert(false);
            0
        },
    }
}

/// One P2PKH input and one P2WPKH output weigh 592 + 124 + 40 = 756 units,
/// so their fee is 189 virtual bytes at any rate.
pub proof fn lemma_fee_one_p2pkh_in_one_p2wpkh_out(input: Seq<char>, output: Seq<char>, rate: u64)
    requires
        classify(script_bytes_of_hex(input)) == ScriptType::P2PKH,
        classify(script_bytes_of_hex(output)) == ScriptType::P2WPKH,
    ensures
        fee_for(seq![input], seq![output], rate) == 189 * rate,
{
    let ins = seq![input];
    let outs = seq![output];
    assert(ins[0] == input);
    assert(outs[0] == output);
    assert(inputs_weight(ins, 0) == 0);
    assert(outputs_weight(outs, 0) == 0);
    assert(inputs_weight(ins, 1) == 592);
    assert(outputs_weight(outs, 1) == 124);
    assert(tx_weight(ins, outs) == 756);
}

// ---------------------------------------------------------------------
// PSBT skeleton
// ---------------------------------------------------------------------

/// A minimal PSBT-shaped record: the input and output scripts, under the
/// keys "inputs" and "outputs".
pub struct PsbtSkeleton {
    pub inputs: Vec<String>,
    pub outputs: Vec<String>,
}

/// The two sequences hold the same strings.
pub open spec fn same_strings(a: Seq<String>, b: Seq<String>) -> bool {
    a.len() == b.len() && forall|k: int| 0 <= k < a.len() ==> #[trigger] a[k]@ == b[k]@
}

pub open spec fn inputs_key() -> Seq<char> {
    seq!['i', 'n', 'p', 'u', 't', 's']
}

pub open spec fn outputs_key() -> Seq<char> {
    seq!['o', 'u', 't', 'p', 'u', 't', 's']
}

fn copy_strings(v: &[String]) -> (r: Vec<String>)
    ensures
        same_strings(r@, v@),
{
    let mut r: Vec<String> = Vec::new();
    let mut i: usize = 0;
    while i < v.len()
        invariant
            i <= v@.len(),
            r@.len() == i,
            forall|k: int| 0 <= k < i ==> #[trigger] r@[k]@ == v@[k]@,
        decreases v@.len() - i,
    {
        r.push(v[i].clone());
        i = i + 1;
    }
    r
}

impl PsbtSkeleton {
    /// The scripts under `key`: "inputs" or "outputs".
    pub fn get(&self, key: &str) -> (r: Option<&Vec<String>>)
        ensures
            key@ == inputs_key() ==> r == Some(&self.inputs),
            key@ == outputs_key() ==> r == Some(&self.outputs),
            key@ != inputs_key() && key@ != outputs_key() ==> r is None,
    {
        proof {
            reveal_strlit("inputs");
            reveal_strlit("outputs");
        }
        assert("inputs"@ =~= inputs_key());
        assert("outputs"@ =~= outputs_key());
        let n = key.unicode_len();
        if n == 6 && str_starts_with(key, "inputs") {
            assert(key@ =~= inputs_key());
            Some(&self.inputs)
        } else if n == 7 && str_starts_with(key, "outputs") {
            assert(key@ =~= outputs_key());
            Some(&self.outputs)
        } else {
            assert(key@ != inputs_key() && key@ != outputs_key()) by {
                if key@ == inputs_key() {
                    assert(key@.subrange(0, 6) =~= key@);
                }
                if key@ == outputs_key() {
                    assert(key@.subrange(0, 7) =~= key@);
                }
            }
            None
        }
    }
}

/// A basic PSBT record of the input and output scripts.
pub fn psbt_skeleton(input_scripts: &[String], output_scripts: &[String]) -> (r: PsbtSkeleton)
    ensures
        same_strings(r.inputs@, input_scripts@),
        same_strings(r.outputs@, output_scripts@),
{
    PsbtSkeleton { inputs: copy_strings(input_scripts), outputs: copy_strings(output_scripts) }
}

/// PSBT magic: "psbt" then the 0xff separator.
pub open spec fn psbt_magic() -> Seq<u8> {
    seq![0x70u8, 0x73u8, 0x62u8, 0x74u8, 0xffu8]
}

/// The PSBT byte skeleton: magic, PSBT version 0 as four little-endian bytes,
/// then one zero placeholder per input and per output.
pub open spec fn psbt_skeleton_bytes_of(n_inputs: nat, n_outputs: nat) -> Seq<u8> {
    psbt_magic() + le_bytes(0, 4) + Seq::new((n_inputs + n_outputs) as nat, |i: int| 0u8)
}

/// The PSBT byte skeleton of a transaction with this many inputs and outputs.
pub fn psbt_skeleton_bytes(n_inputs: usize, n_outputs: usize) -> (r: Vec<u8>)
    ensures
        r@ == psbt_skeleton_bytes_of(n_inputs as nat, n_outputs as nat),
{
    let mut r: Vec<u8> = Vec::new();
    r.push(0x70);
    r.push(0x73);
    r.push(0x62);
    r.push(0x74);
    r.push(0xff);
    push_le(&mut r, 0, 4);
    let ghost head = r@;
    let mut i: usize = 0;
    while i < n_inputs
        invariant
            i <= n_inputs,
            r@ == head + Seq::new(i as nat, |k: int| 0u8),
        decreases n_inputs - i,
    {
        r.push(0);
        assert(head + Seq::new((i + 1) as nat, |k: int| 0u8) =~= (head + Seq::new(
            i as nat,
            |k: int| 0u8,
        )).push(0));
        i = i + 1;
    }
    let mut j: usize = 0;
    while j < n_outputs
        invariant
            j <= n_outputs,
            r@ == head + Seq::new((n_inputs + j) as nat, |k: int| 0u8),
        decreases n_outputs - j,
    {
        r.push(0);
        assert(head + Seq::new((n_inputs + j + 1) as nat, |k: int| 0u8) =~= (head + Seq::new(
            (n_inputs + j) as nat,
            |k: int| 0u8,
        )).push(0));
        j = j + 1;
    }
    assert(r@ =~= psbt_skeleton_bytes_of(n_inputs as nat, n_outputs as nat));
    r
}

} // verus!
