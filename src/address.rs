use vstd::prelude::*;

use crate::bech32::{bech32_of, decode_segwit, encode_segwit, hrp_valid, segwit_data, segwit_decoded};
use crate::crypto::{checksum, checksum_of, hash160, hash160_of};
use crate::keys::PublicKey;
use crate::network::{spec_bech32_hrp, spec_p2pkh_prefix, spec_p2sh_prefix, starts_with, Network};
use crate::utils::{base58_decode, base58_decoded, base58_encode, base58_of, bytes_eq, copy_range, push_all};

verus! {

// ---------------------------------------------------------------------
// Script templates
// ---------------------------------------------------------------------

/// A script template was given a hash that is not 20 bytes.
#[derive(Clone, Copy, Debug, PartialEq, Eq, Structural)]
pub enum ScriptError {
    InvalidLength,
}

/// `OP_DUP OP_HASH160 <20 bytes> OP_EQUALVERIFY OP_CHECKSIG`.
pub open spec fn p2pkh_script_of(h: Seq<u8>) -> Seq<u8> {
    seq![0x76u8, 0xa9u8, 0x14u8] + h + seq![0x88u8, 0xacu8]
}

/// `OP_HASH160 <20 bytes> OP_EQUAL`.
pub open spec fn p2sh_script_of(h: Seq<u8>) -> Seq<u8> {
    seq![0xa9u8, 0x14u8] + h + seq![0x87u8]
}

/// `OP_0 <20 bytes>`.
pub open spec fn p2wpkh_script_of(h: Seq<u8>) -> Seq<u8> {
    seq![0x00u8, 0x14u8] + h
}

/// Pay-to-public-key-hash script of a 20-byte hash.
pub fn p2pkh_script(hash160: &[u8]) -> (r: Result<Vec<u8>, ScriptError>)
    ensures
        match r {
            Ok(s) => hash160@.len() == 20 && s@ == p2pkh_script_of(hash160@),
            Err(e) => hash160@.len() != 20 && e == ScriptError::InvalidLength,
        },
{
    if hash160.len() != 20 {
        return Err(ScriptError::InvalidLength);
    }
    let mut script: Vec<u8> = Vec::new();
    script.push(0x76);
    script.push(0xa9);
    script.push(0x14);
    push_all(&mut script, hash160);
    script.push(0x88);
    script.push(0xac);
    assert(script@ =~= p2pkh_script_of(hash160@));
    Ok(script)
}

/// Pay-to-script-hash script of a 20-byte hash.
pub fn p2sh_script(hash160: &[u8]) -> (r: Result<Vec<u8>, ScriptError>)
    ensures
        match r {
            Ok(s) => hash160@.len() == 20 && s@ == p2sh_script_of(hash160@),
            Err(e) => hash160@.len() != 20 && e == ScriptError::InvalidLength,
        },
{
    if hash160.len() != 20 {
        return Err(ScriptError::InvalidLength);
    }
    let mut script: Vec<u8> = Vec::new();
    script.push(0xa9);
    script.push(0x14);
    push_all(&mut script, hash160);
    script.push(0x87);
    assert(script@ =~= p2sh_script_of(hash160@));
    Ok(script)
}

/// Native segwit v0 pay-to-witness-public-key-hash script of a 20-byte hash.
pub fn p2wpkh_script(hash160: &[u8]) -> (r: Result<Vec<u8>, ScriptError>)
    ensures
        match r {
            Ok(s) => hash160@.len() == 20 && s@ == p2wpkh_script_of(hash160@),
            Err(e) => hash160@.len() != 20 && e == ScriptError::InvalidLength,
        },
{
    if hash160.len() != 20 {
        return Err(ScriptError::InvalidLength);
    }
    let mut script: Vec<u8> = Vec::new();
    script.push(0x00);
    script.push(0x14);
    push_all(&mut script, hash160);
    assert(script@ =~= p2wpkh_script_of(hash160@));
    Ok(script)
}

/// The pay-to-public-key-hash script that locks to `pubkey`.
pub fn pubkey_to_scriptpubkey(pubkey: &PublicKey) -> (r: Vec<u8>)
    ensures
        r@ == p2pkh_script_of(hash160_of(pubkey@)),
{
    let h = hash160(pubkey.serialize().as_slice());
    match p2pkh_script(h.as_slice()) {
        Ok(s) => s,
        Err(_) => {
            assert(false);
            Vec::new()
        },
    }
}

// ---------------------------------------------------------------------
// Addresses
// ---------------------------------------------------------------------

/// Why an address was refused.
#[derive(Clone, Copy, Debug, PartialEq, Eq, Structural)]
pub enum AddressError {
    /// Carries the network's human-readable part but is not a Bech32 segwit address.
    InvalidBech32,
    /// A witness version other than 0.
    UnsupportedWitnessVersion,
    /// A witness program that is not 20 bytes.
    InvalidWitnessProgram,
    /// Not Base58 text.
    InvalidBase58,
    /// Not 25 bytes once decoded.
    InvalidLength,
    /// The last four bytes are not the checksum of the rest.
    InvalidChecksum,
    /// A version byte that is neither this network's P2PKH nor its P2SH byte.
    UnknownPrefix,
}

/// `b` followed by its checksum.
pub open spec fn with_checksum(b: Seq<u8>) -> Seq<u8> {
    b + checksum_of(b)
}

/// The 25 bytes behind the legacy address of `pubkey`.
pub open spec fn p2pkh_address_bytes(network: Network, pubkey: Seq<u8>) -> Seq<u8> {
    with_checksum(seq![spec_p2pkh_prefix(network)] + hash160_of(pubkey))
}

/// The script that a Base58Check address locks to, or why it is refused.
pub open spec fn base58_address_script(addr: Seq<char>, network: Network) -> Result<
    Seq<u8>,
    AddressError,
> {
    match base58_decoded(addr) {
        None => Err(AddressError::InvalidBase58),
        Some(d) => if d.len() != 25 {
            Err(AddressError::InvalidLength)
        } else if d.subrange(21, 25) != checksum_of(d.subrange(0, 21)) {
            Err(AddressError::InvalidChecksum)
        } else if d[0] == spec_p2pkh_prefix(network) {
            Ok(p2pkh_script_of(d.subrange(1, 21)))
        } else if d[0] == spec_p2sh_prefix(network) {
            Ok(p2sh_script_of(d.subrange(1, 21)))
        } else {
            Err(AddressError::UnknownPrefix)
        },
    }
}

/// The script that a Bech32 segwit v0 address locks to, or why it is refused.
pub open spec fn segwit_address_script(addr: Seq<char>) -> Result<Seq<u8>, AddressError> {
    match segwit_decoded(addr) {
        None => Err(AddressError::InvalidBech32),
        Some((_hrp, witver, prog)) => if witver != 0 {
            Err(AddressError::UnsupportedWitnessVersion)
        } else if prog.len() != 20 {
            Err(AddressError::InvalidWitnessProgram)
        } else {
            Ok(p2wpkh_script_of(prog))
        },
    }
}

/// The script an address locks to: Bech32 when it begins with the network's
/// human-readable part, Base58Check otherwise.
pub open spec fn address_script(addr: Seq<char>, network: Network) -> Result<
    Seq<u8>,
    AddressError,
> {
    if starts_with(addr, spec_bech32_hrp(network)) {
        segwit_address_script(addr)
    } else {
        base58_address_script(addr, network)
    }
}

/// `addr` is the legacy address of `pubkey`: it decodes to the version byte,
/// the 20-byte key hash and the 4-byte checksum.
pub open spec fn is_legacy_address_of(addr: Seq<char>, network: Network, pubkey: Seq<u8>) -> bool {
    &&& base58_decoded(addr) == Some(p2pkh_address_bytes(network, pubkey))
    &&& hash160_of(pubkey).len() == 20
    &&& checksum_of(seq![spec_p2pkh_prefix(network)] + hash160_of(pubkey)).len() == 4
}

/// Legacy P2PKH address of a public key.
pub fn pubkey_to_address(pubkey: &PublicKey, network: Network) -> (r: String)
    ensures
        r@ == base58_of(p2pkh_address_bytes(network, pubkey@)),
        is_legacy_address_of(r@, network, pubkey@),
{
    let h = hash160(pubkey.serialize().as_slice());
    let mut payload: Vec<u8> = Vec::new();
    payload.push(network.p2pkh_prefix());
    push_all(&mut payload, h.as_slice());
    let sum = checksum(payload.as_slice());
    push_all(&mut payload, sum.as_slice());
    assert(payload@ =~= p2pkh_address_bytes(network, pubkey@));
    base58_encode(payload.as_slice())
}

/// The Base58Check path of address decoding.
fn base58_script(addr: &str, network: Network) -> (r: Result<Vec<u8>, AddressError>)
    ensures
        match r {
            Ok(s) => base58_address_script(addr@, network) == Ok::<Seq<u8>, AddressError>(s@),
            Err(e) => base58_address_script(addr@, network) == Err::<Seq<u8>, AddressError>(e),
        },
{
    let d = match base58_decode(addr) {
        Ok(d) => d,
        Err(_) => return Err(AddressError::InvalidBase58),
    };
    if d.len() != 25 {
        return Err(AddressError::InvalidLength);
    }
    let head = copy_range(d.as_slice(), 0, 21);
    let sum = copy_range(d.as_slice(), 21, 25);
    let expected = checksum(head.as_slice());
    if !bytes_eq(sum.as_slice(), expected.as_slice()) {
        return Err(AddressError::InvalidChecksum);
    }
    let hash = copy_range(d.as_slice(), 1, 21);
    if d[0] == network.p2pkh_prefix() {
        match p2pkh_script(hash.as_slice()) {
            Ok(s) => Ok(s),
            Err(_) => Err(AddressError::InvalidLength),
        }
    } else if d[0] == network.p2sh_prefix() {
        match p2sh_script(hash.as_slice()) {
            Ok(s) => Ok(s),
            Err(_) => Err(AddressError::InvalidLength),
        }
    } else {
        Err(AddressError::UnknownPrefix)
    }
}

/// Validates a Base58Check P2PKH or P2SH address of `network` (not Bech32).
pub fn validate_address(addr: &str, network: Network) -> (r: bool)
    ensures
        r == base58_address_script(addr@, network) is Ok,
{
    match base58_script(addr, network) {
        Ok(_) => true,
        Err(_) => false,
    }
}

/// The P2WPKH script of a Bech32 segwit v0 address.
fn p2wpkh_script_from_bech32(addr: &str) -> (r: Result<Vec<u8>, AddressError>)
    ensures
        match r {
            Ok(s) => segwit_address_script(addr@) == Ok::<Seq<u8>, AddressError>(s@),
            Err(e) => segwit_address_script(addr@) == Err::<Seq<u8>, AddressError>(e),
        },
{
    let (_hrp, witver, prog) = match decode_segwit(addr) {
        Some(x) => x,
        None => return Err(AddressError::InvalidBech32),
    };
    if witver != 0 {
        return Err(AddressError::UnsupportedWitnessVersion);
    }
    match p2wpkh_script(prog.as_slice()) {
        Ok(s) => Ok(s),
        Err(_) => Err(AddressError::InvalidWitnessProgram),
    }
}

fn script_for_address(addr: &str, network: Network) -> (r: Result<Vec<u8>, AddressError>)
    ensures
        match r {
            Ok(s) => address_script(addr@, network) == Ok::<Seq<u8>, AddressError>(s@),
            Err(e) => address_script(addr@, network) == Err::<Seq<u8>, AddressError>(e),
        },
{
    if network.matches_bech32(addr) {
        p2wpkh_script_from_bech32(addr)
    } else {
        base58_script(addr, network)
    }
}

/// The script that an address locks to, for an address known to be valid.
pub fn address_to_scriptpubkey(addr: &str, network: Network) -> (r: Vec<u8>)
    requires
        address_script(addr@, network) is Ok,
    ensures
        address_script(addr@, network) == Ok::<Seq<u8>, AddressError>(r@),
{
    match script_for_address(addr, network) {
        Ok(s) => s,
        Err(_) => {
            assert(false);
            Vec::new()
        },
    }
}

/// The script that an address locks to, or why the address is refused.
pub fn try_address_to_scriptpubkey(addr: &str, network: Network) -> (r: Result<
    Vec<u8>,
    AddressError,
>)
    ensures
        match r {
            Ok(s) => address_script(addr@, network) == Ok::<Seq<u8>, AddressError>(s@),
            Err(e) => address_script(addr@, network) == Err::<Seq<u8>, AddressError>(e),
        },
{
    match script_for_address(addr, network) {
        Ok(_) => Ok(address_to_scriptpubkey(addr, network)),
        Err(e) => Err(e),
    }
}

/// Bech32 P2WPKH address of a public key.
pub fn pubkey_to_bech32(pubkey: &PublicKey, hrp: &str) -> (r: String)
    requires
        hrp_valid(hrp@),
    ensures
        r@ == bech32_of(hrp@, segwit_data(0, hash160_of(pubkey@))),
{
    let h = hash160(pubkey.serialize().as_slice());
    encode_segwit(hrp, 0, h.as_slice())
}

/// Addresses round-trip: the legacy address of a public key locks to the
/// P2PKH script of the key's hash160. The address text must not begin with
/// the network's human-readable part, as such text is read as Bech32.
pub proof fn lemma_address_round_trip(addr: Seq<char>, network: Network, pubkey: Seq<u8>)
    requires
        is_legacy_address_of(addr, network, pubkey),
        !starts_with(addr, spec_bech32_hrp(network)),
    ensures
        address_script(addr, network) == Ok::<Seq<u8>, AddressError>(
            p2pkh_script_of(hash160_of(pubkey)),
        ),
{
    let head = seq![spec_p2pkh_prefix(network)] + hash160_of(pubkey);
    let d = p2pkh_address_bytes(network, pubkey);
    assert(d.subrange(0, 21) =~= head);
    assert(d.subrange(21, 25) =~= checksum_of(head));
    assert(d.subrange(1, 21) =~= hash160_of(pubkey));
}

/// Every legacy address that this library produces passes validation.
pub proof fn lemma_produced_address_valid(addr: Seq<char>, network: Network, pubkey: Seq<u8>)
    requires
        is_legacy_address_of(addr, network, pubkey),
    ensures
        base58_address_script(addr, network) is Ok,
{
    let head = seq![spec_p2pkh_prefix(network)] + hash160_of(pubkey);
    let d = p2pkh_address_bytes(network, pubkey);
    assert(d.subrange(0, 21) =~= head);
    assert(d.subrange(21, 25) =~= checksum_of(head));
}

/// Changing one byte of a valid address payload: a change in the checksum
/// bytes is always rejected, and a change in the version or hash bytes is
/// accepted only if the double SHA-256 checksums of the two different
/// 21-byte heads collide.
pub proof fn lemma_checksum_detects_mutation(
    addr: Seq<char>,
    network: Network,
    d: Seq<u8>,
    i: int,
    b: u8,
)
    requires
        d.len() == 25,
        d.subrange(21, 25) == checksum_of(d.subrange(0, 21)),
        0 <= i < 25,
        b != d[i],
        base58_decoded(addr) == Some(d.update(i, b)),
    ensures
        21 <= i ==> base58_address_script(addr, network) is Err,
        i < 21 && base58_address_script(addr, network) is Ok ==> d.update(i, b).subrange(0, 21)
            != d.subrange(0, 21) && checksum_of(d.update(i, b).subrange(0, 21)) == checksum_of(
            d.subrange(0, 21),
        ),
{
    let m = d.update(i, b);
    if 21 <= i {
        assert(m.subrange(0, 21) =~= d.subrange(0, 21));
        assert(m.subrange(21, 25)[i - 21] != d.subrange(21, 25)[i - 21]);
    } else {
        assert(m.subrange(21, 25) =~= d.subrange(21, 25));
        assert(m.subrange(0, 21)[i] != d.subrange(0, 21)[i]);
    }
}

} // verus!
