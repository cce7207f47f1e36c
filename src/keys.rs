use vstd::prelude::*;

use crate::crypto::{checksum, checksum_of};
use crate::network::{spec_wif_prefix, Network};
use crate::utils::{base58_decode, base58_decoded, base58_encode, base58_of, push_all};

verus! {

/// Order of the secp256k1 group.
pub open spec fn curve_order() -> nat {
    0xFFFF_FFFF_FFFF_FFFF_FFFF_FFFF_FFFF_FFFE_BAAE_DCE6_AF48_A03B_BFD2_5E8C_D036_4141nat
}

/// Big-endian value of `b`.
pub open spec fn be_value(b: Seq<u8>) -> nat
    decreases b.len(),
{
    if b.len() == 0 {
        0
    } else {
        be_value(b.drop_last()) * 256 + b.last() as nat
    }
}

/// 32 bytes whose big-endian value is a non-zero scalar below the group order.
pub open spec fn is_secret_key(b: Seq<u8>) -> bool {
    b.len() == 32 && 0 < be_value(b) < curve_order()
}

/// The compressed (33-byte) public key that secp256k1 derives from `secret`.
pub uninterp spec fn pubkey_of(secret: Seq<u8>) -> Seq<u8>;

/// The DER-encoded ECDSA signature that secp256k1 makes of `digest` with
/// `secret`.
pub uninterp spec fn ecdsa_der_of(digest: Seq<u8>, secret: Seq<u8>) -> Seq<u8>;

/// Relies on secp256k1's `SecretKey::from_slice`: it accepts exactly 32 bytes
/// whose big-endian value is in [1, n), n the group order.
#[verifier::external_body]
fn secret_key_accepts(b: &[u8]) -> (r: bool)
    ensures
        r == is_secret_key(b@),
{
    secp256k1::SecretKey::from_slice(b).is_ok()
}

/// Relies on secp256k1's `PublicKey::from_secret_key`, serialised with
/// `PublicKey::serialize` (33 bytes, compressed).
#[verifier::external_body]
fn derive_pubkey(secret: &[u8]) -> (r: Vec<u8>)
    requires
        is_secret_key(secret@),
    ensures
        r@ == pubkey_of(secret@),
        r@.len() == 33,
{
    let secp = secp256k1::Secp256k1::signing_only();
    let sk = secp256k1::SecretKey::from_slice(secret).expect("a valid secret key");
    secp256k1::PublicKey::from_secret_key(&secp, &sk).serialize().to_vec()
}

/// Relies on secp256k1's `Secp256k1::sign_ecdsa`, whose nonce is derived by
/// RFC6979 so the signature depends on digest and key alone, serialised with
/// `Signature::serialize_der` (at most 72 bytes).
#[verifier::external_body]
fn sign_der(digest: &[u8], secret: &[u8]) -> (r: Vec<u8>)
    requires
        digest@.len() == 32,
        is_secret_key(secret@),
    ensures
        r@ == ecdsa_der_of(digest@, secret@),
        r@.len() <= 72,
{
    let secp = secp256k1::Secp256k1::signing_only();
    let msg = secp256k1::Message::from_digest_slice(digest).expect("a 32-byte digest");
    let sk = secp256k1::SecretKey::from_slice(secret).expect("a valid secret key");
    secp.sign_ecdsa(&msg, &sk).serialize_der().to_vec()
}

/// Relies on secp256k1's `Secp256k1::generate_keypair` fed by rand's `OsRng`:
/// the secret half is a valid secret key, its value is random.
#[verifier::external_body]
fn random_secret() -> (r: Vec<u8>)
    ensures
        is_secret_key(r@),
{
    let secp = secp256k1::Secp256k1::new();
    let (sk, _) = secp.generate_keypair(&mut rand::rngs::OsRng);
    sk.secret_bytes().to_vec()
}

/// A secp256k1 secret key, held as its 32 big-endian bytes.
pub struct SecretKey {
    bytes: Vec<u8>,
}

impl View for SecretKey {
    type V = Seq<u8>;

    closed spec fn view(&self) -> Seq<u8> {
        self.bytes@
    }
}

impl SecretKey {
    #[verifier::type_invariant]
    spec fn valid(self) -> bool {
        is_secret_key(self.bytes@)
    }

    /// The key whose bytes are `b`, when they form a valid secret key.
    pub fn from_slice(b: &[u8]) -> (r: Option<SecretKey>)
        ensures
            r is Some <==> is_secret_key(b@),
            r is Some ==> r->Some_0@ == b@,
    {
        if secret_key_accepts(b) {
            let mut bytes: Vec<u8> = Vec::new();
            push_all(&mut bytes, b);
            Some(SecretKey { bytes })
        } else {
            None
        }
    }

    /// The 32 bytes of the key.
    pub fn secret_bytes(&self) -> (r: Vec<u8>)
        ensures
            r@ == self@,
            is_secret_key(r@),
    {
        proof {
            use_type_invariant(self);
        }
        let mut r: Vec<u8> = Vec::new();
        push_all(&mut r, self.bytes.as_slice());
        r
    }

    /// DER signature of a 32-byte digest with this key.
    pub fn sign_digest(&self, digest: &[u8]) -> (r: Vec<u8>)
        requires
            digest@.len() == 32,
        ensures
            r@ == ecdsa_der_of(digest@, self@),
            r@.len() <= 72,
    {
        proof {
            use_type_invariant(self);
        }
        sign_der(digest, self.bytes.as_slice())
    }
}

/// A compressed secp256k1 public key (33 bytes).
pub struct PublicKey {
    bytes: Vec<u8>,
}

impl View for PublicKey {
    type V = Seq<u8>;

    closed spec fn view(&self) -> Seq<u8> {
        self.bytes@
    }
}

impl PublicKey {
    #[verifier::type_invariant]
    spec fn valid(self) -> bool {
        self.bytes@.len() == 33
    }

    /// The 33 bytes of the compressed key.
    pub fn serialize(&self) -> (r: Vec<u8>)
        ensures
            r@ == self@,
            r@.len() == 33,
    {
        proof {
            use_type_invariant(self);
        }
        let mut r: Vec<u8> = Vec::new();
        push_all(&mut r, self.bytes.as_slice());
        r
    }
}

/// Derive the compressed public key of a secret key.
pub fn privkey_to_pubkey(secret: &SecretKey) -> (r: PublicKey)
    ensures
        r@ == pubkey_of(secret@),
{
    let b = secret.secret_bytes();
    PublicKey { bytes: derive_pubkey(b.as_slice()) }
}

// ---------------------------------------------------------------------
// Wallet import format
// ---------------------------------------------------------------------

/// Why a WIF string was refused.
#[derive(Clone, Copy, Debug, PartialEq, Eq, Structural)]
pub enum KeyError {
    /// Not Base58 text.
    InvalidBase58,
    /// Not 38 bytes once decoded.
    InvalidLength,
    /// The version byte is not this network's.
    WrongNetwork,
    /// The compressed-key marker is missing.
    NotCompressed,
    /// The last four bytes are not the checksum of the rest.
    InvalidChecksum,
    /// The 32 key bytes are not a valid secret key.
    InvalidSecretKey,
}

/// The bytes behind a WIF string: version, key, compressed marker.
pub open spec fn wif_payload(network: Network, secret: Seq<u8>) -> Seq<u8> {
    seq![spec_wif_prefix(network)] + secret + seq![1u8]
}

/// The WIF text of `secret` on `network`.
pub open spec fn wif_text(network: Network, secret: Seq<u8>) -> Seq<char> {
    base58_of(wif_payload(network, secret) + checksum_of(wif_payload(network, secret)))
}

/// The secret key that a WIF string carries, or why it is refused.
pub open spec fn wif_secret(wif: Seq<char>, network: Network) -> Result<Seq<u8>, KeyError> {
    match base58_decoded(wif) {
        None => Err(KeyError::InvalidBase58),
        Some(d) => if d.len() != 38 {
            Err(KeyError::InvalidLength)
        } else if d[0] != spec_wif_prefix(network) {
            Err(KeyError::WrongNetwork)
        } else if d[33] != 1 {
            Err(KeyError::NotCompressed)
        } else if d.subrange(34, 38) != checksum_of(d.subrange(0, 34)) {
            Err(KeyError::InvalidChecksum)
        } else if !is_secret_key(d.subrange(1, 33)) {
            Err(KeyError::InvalidSecretKey)
        } else {
            Ok(d.subrange(1, 33))
        },
    }
}

/// WIF text of a secret key.
pub fn secret_to_wif(secret: &SecretKey, network: Network) -> (r: String)
    ensures
        r@ == wif_text(network, secret@),
        wif_secret(r@, network) == Ok::<Seq<u8>, KeyError>(secret@),
{
    let key = secret.secret_bytes();
    let mut payload: Vec<u8> = Vec::new();
    payload.push(network.wif_prefix());
    push_all(&mut payload, key.as_slice());
    payload.push(0x01);
    let ghost p = payload@;
    assert(p =~= wif_payload(network, secret@));
    let sum = checksum(payload.as_slice());
    push_all(&mut payload, sum.as_slice());
    let r = base58_encode(payload.as_slice());
    proof {
        let d = payload@;
        assert(d.subrange(0, 34) =~= p);
        assert(d.subrange(34, 38) =~= sum@);
        assert(d.subrange(1, 33) =~= secret@);
    }
    r
}

/// A new random secret key, as WIF text.
pub fn generate_wif(network: Network) -> (r: String)
    ensures
        exists|k: Seq<u8>| is_secret_key(k) && r@ == #[trigger] wif_text(network, k),
{
    let b = random_secret();
    let secret = SecretKey { bytes: b };
    secret_to_wif(&secret, network)
}

fn decode_wif(wif: &str, network: Network) -> (r: Result<SecretKey, KeyError>)
    ensures
        match r {
            Ok(k) => wif_secret(wif@, network) == Ok::<Seq<u8>, KeyError>(k@),
            Err(e) => wif_secret(wif@, network) == Err::<Seq<u8>, KeyError>(e),
        },
{
    let d = match base58_decode(wif) {
        Ok(d) => d,
        Err(_) => return Err(KeyError::InvalidBase58),
    };
    if d.len() != 38 {
        return Err(KeyError::InvalidLength);
    }
    if d[0] != network.wif_prefix() {
        return Err(KeyError::WrongNetwork);
    }
    if d[33] != 1 {
        return Err(KeyError::NotCompressed);
    }
    let mut head: Vec<u8> = Vec::new();
    let mut i: usize = 0;
    while i < 34
        invariant
            d@.len() == 38,
            i <= 34,
            head@ == d@.subrange(0, i as int),
        decreases 34 - i,
    {
        head.push(d[i]);
        assert(d@.subrange(0, i + 1) =~= d@.subrange(0, i as int).push(d@[i as int]));
        i = i + 1;
    }
    let sum = checksum(head.as_slice());
    let mut j: usize = 0;
    while j < 4
        invariant
            d@.len() == 38,
            sum@.len() == 4,
            sum@ == checksum_of(d@.subrange(0, 34)),
            base58_decoded(wif@) == Some(d@),
            d@[0] == spec_wif_prefix(network),
            d@[33] == 1,
            j <= 4,
            forall|k: int| 0 <= k < j ==> d@[34 + k] == sum@[k],
        decreases 4 - j,
    {
        if d[34 + j] != sum[j] {
            assert(d@.subrange(34, 38)[j as int] != sum@[j as int]);
            return Err(KeyError::InvalidChecksum);
        }
        j = j + 1;
    }
    assert(d@.subrange(34, 38) =~= sum@);
    let mut key: Vec<u8> = Vec::new();
    let mut k: usize = 1;
    while k < 33
        invariant
            d@.len() == 38,
            1 <= k <= 33,
            key@ == d@.subrange(1, k as int),
        decreases 33 - k,
    {
        key.push(d[k]);
        assert(d@.subrange(1, k + 1) =~= d@.subrange(1, k as int).push(d@[k as int]));
        k = k + 1;
    }
    match SecretKey::from_slice(key.as_slice()) {
        Some(s) => Ok(s),
        None => Err(KeyError::InvalidSecretKey),
    }
}

/// Decodes a WIF string that is known to be valid for `network`.
pub fn wif_to_privkey(wif: &str, network: Network) -> (r: SecretKey)
    requires
        wif_secret(wif@, network) is Ok,
    ensures
        wif_secret(wif@, network) == Ok::<Seq<u8>, KeyError>(r@),
{
    match decode_wif(wif, network) {
        Ok(k) => k,
        Err(_) => {
            assert(false);
            SecretKey { bytes: Vec::new() }
        },
    }
}

/// Decodes a WIF string, or says why it is refused.
pub fn try_wif_to_privkey(wif: &str, network: Network) -> (r: Result<SecretKey, KeyError>)
    ensures
        match r {
            Ok(k) => wif_secret(wif@, network) == Ok::<Seq<u8>, KeyError>(k@),
            Err(e) => wif_secret(wif@, network) == Err::<Seq<u8>, KeyError>(e),
        },
{
    match decode_wif(wif, network) {
        Ok(_) => Ok(wif_to_privkey(wif, network)),
        Err(e) => Err(e),
    }
}

} // verus!
