use vstd::prelude::*;

verus! {

// ---------------------------------------------------------------------
// Little-endian integers and the variable-length integer
// ---------------------------------------------------------------------

/// The `k` low-order bytes of `n`, least significant first.
pub open spec fn le_bytes(n: nat, k: nat) -> Seq<u8>
    decreases k,
{
    if k == 0 {
        Seq::empty()
    } else {
        seq![(n % 256) as u8] + le_bytes(n / 256, (k - 1) as nat)
    }
}

/// Bitcoin's variable-length integer: one byte below 0xfd, else a marker
/// byte followed by a 2-, 4- or 8-byte little-endian value.
pub open spec fn varint_bytes(n: nat) -> Seq<u8> {
    if n <= 0xfc {
        seq![n as u8]
    } else if n <= 0xffff {
        seq![0xfdu8] + le_bytes(n, 2)
    } else if n <= 0xffff_ffff {
        seq![0xfeu8] + le_bytes(n, 4)
    } else {
        seq![0xffu8] + le_bytes(n, 8)
    }
}

pub proof fn lemma_le_bytes_len(n: nat, k: nat)
    ensures
        le_bytes(n, k).len() == k,
    decreases k,
{
    if k > 0 {
        lemma_le_bytes_len(n / 256, (k - 1) as nat);
    }
}

/// Appends the `k` low-order bytes of `n`, least significant first.
pub fn push_le(out: &mut Vec<u8>, n: u64, k: usize)
    ensures
        final(out)@ == old(out)@ + le_bytes(n as nat, k as nat),
{
    let ghost start = old(out)@;
    let mut x: u64 = n;
    let mut i: usize = 0;
    while i < k
        invariant
            i <= k,
            out@ + le_bytes(x as nat, (k - i) as nat) == start + le_bytes(n as nat, k as nat),
        decreases k - i,
    {
        let ghost before = out@;
        out.push((x % 256) as u8);
        proof {
            assert(le_bytes(x as nat, (k - i) as nat) == seq![(x % 256) as u8] + le_bytes(
                (x / 256) as nat,
                (k - i - 1) as nat,
            ));
            assert(out@ + le_bytes((x / 256) as nat, (k - i - 1) as nat) =~= before + le_bytes(
                x as nat,
                (k - i) as nat,
            ));
        }
        x = x / 256;
        i = i + 1;
    }
    assert(out@ =~= start + le_bytes(n as nat, k as nat));
}

/// Appends every byte of `b`.
pub fn push_all(out: &mut Vec<u8>, b: &[u8])
    ensures
        final(out)@ == old(out)@ + b@,
{
    let ghost start = old(out)@;
    let mut i: usize = 0;
    while i < b.len()
        invariant
            i <= b@.len(),
            out@ == start + b@.subrange(0, i as int),
        decreases b@.len() - i,
    {
        out.push(b[i]);
        assert(b@.subrange(0, i + 1) =~= b@.subrange(0, i as int).push(b@[i as int]));
        i = i + 1;
    }
    assert(b@.subrange(0, b@.len() as int) =~= b@);
}

/// The bytes of `b` from `from` up to `to`.
pub fn copy_range(b: &[u8], from: usize, to: usize) -> (r: Vec<u8>)
    requires
        from <= to <= b@.len(),
    ensures
        r@ == b@.subrange(from as int, to as int),
{
    let mut r: Vec<u8> = Vec::new();
    let mut i: usize = from;
    while i < to
        invariant
            from <= i <= to,
            to <= b@.len(),
            r@ == b@.subrange(from as int, i as int),
        decreases to - i,
    {
        r.push(b[i]);
        assert(b@.subrange(from as int, i + 1) =~= b@.subrange(from as int, i as int).push(
            b@[i as int],
        ));
        i = i + 1;
    }
    r
}

/// Byte-wise equality.
pub fn bytes_eq(a: &[u8], b: &[u8]) -> (r: bool)
    ensures
        r == (a@ == b@),
{
    if a.len() != b.len() {
        return false;
    }
    let mut i: usize = 0;
    while i < a.len()
        invariant
            a@.len() == b@.len(),
            i <= a@.len(),
            forall|k: int| 0 <= k < i ==> a@[k] == b@[k],
        decreases a@.len() - i,
    {
        if a[i] != b[i] {
            return false;
        }
        i = i + 1;
    }
    assert(a@ =~= b@);
    true
}

/// Appends the variable-length encoding of `n`.
pub fn push_varint(out: &mut Vec<u8>, n: usize)
    ensures
        final(out)@ == old(out)@ + varint_bytes(n as nat),
{
    if n <= 0xfc {
        out.push(n as u8);
    } else if n <= 0xffff {
        out.push(0xfd);
        push_le(out, n as u64, 2);
    } else if n as u64 <= 0xffff_ffff {
        out.push(0xfe);
        push_le(out, n as u64, 4);
    } else {
        out.push(0xff);
        push_le(out, n as u64, 8);
    }
}

/// Four bytes of `n`, least significant first.
pub fn u32_le(n: u32) -> (r: [u8; 4])
    ensures
        r@ == le_bytes(n as nat, 4),
{
    let mut v: Vec<u8> = Vec::new();
    push_le(&mut v, n as u64, 4);
    proof {
        lemma_le_bytes_len(n as nat, 4);
    }
    let r = [v[0], v[1], v[2], v[3]];
    assert(r@ =~= v@);
    r
}

/// Eight bytes of `n`, least significant first.
pub fn u64_le(n: u64) -> (r: [u8; 8])
    ensures
        r@ == le_bytes(n as nat, 8),
{
    let mut v: Vec<u8> = Vec::new();
    push_le(&mut v, n, 8);
    proof {
        lemma_le_bytes_len(n as nat, 8);
    }
    let r = [v[0], v[1], v[2], v[3], v[4], v[5], v[6], v[7]];
    assert(r@ =~= v@);
    r
}

/// Bitcoin-style variable-length integer.
pub fn varint(n: usize) -> (r: Vec<u8>)
    ensures
        r@ == varint_bytes(n as nat),
{
    let mut v: Vec<u8> = Vec::new();
    push_varint(&mut v, n);
    assert(v@ =~= varint_bytes(n as nat));
    v
}

// ---------------------------------------------------------------------
// Hex
// ---------------------------------------------------------------------

pub open spec fn is_hex_digit(c: char) -> bool {
    ('0' <= c && c <= '9') || ('a' <= c && c <= 'f') || ('A' <= c && c <= 'F')
}

/// Value of a hex digit.
pub open spec fn hex_digit_value(c: char) -> int {
    if '0' <= c && c <= '9' {
        c as int - '0' as int
    } else if 'a' <= c && c <= 'f' {
        c as int - 'a' as int + 10
    } else {
        c as int - 'A' as int + 10
    }
}

/// `s` is an even number of hex digits, of either case.
pub open spec fn is_hex(s: Seq<char>) -> bool {
    s.len() % 2 == 0 && forall|i: int| 0 <= i < s.len() ==> #[trigger] is_hex_digit(s[i])
}

/// The bytes that the hex digits of `s` spell, two digits per byte, high digit first.
pub open spec fn hex_decoded(s: Seq<char>) -> Seq<u8> {
    Seq::new(
        s.len() / 2,
        |i: int| (hex_digit_value(s[2 * i]) * 16 + hex_digit_value(s[2 * i + 1])) as u8,
    )
}

/// Lower-case hex digit of a value below 16.
pub open spec fn hex_char(v: int) -> char {
    seq!['0', '1', '2', '3', '4', '5', '6', '7', '8', '9', 'a', 'b', 'c', 'd', 'e', 'f'][v]
}

/// Two lower-case hex digits per byte, high digit first.
pub open spec fn hex_encoded(b: Seq<u8>) -> Seq<char> {
    Seq::new(
        2 * b.len(),
        |i: int|
            if i % 2 == 0 {
                hex_char(b[i / 2] as int / 16)
            } else {
                hex_char(b[i / 2] as int % 16)
            },
    )
}

#[verifier::external_type_specification]
#[verifier::external_body]
pub struct ExFromHexError(hex::FromHexError);

/// Relies on hex::decode: it accepts exactly an even number of hex digits of
/// either case and reads each pair as one byte, high digit first.
#[verifier::external_body]
pub(crate) fn hex_decode(s: &str) -> (r: Result<Vec<u8>, hex::FromHexError>)
    ensures
        r is Ok <==> is_hex(s@),
        r is Ok ==> r->Ok_0@ == hex_decoded(s@),
{
    hex::decode(s)
}

/// Relies on hex::encode: two lower-case hex digits per byte.
#[verifier::external_body]
fn hex_encode(b: &[u8]) -> (r: String)
    ensures
        r@ == hex_encoded(b@),
{
    hex::encode(b)
}

/// Decodes hex text; the text must be valid hex.
pub fn hex_to_bytes(s: &str) -> (r: Vec<u8>)
    requires
        is_hex(s@),
    ensures
        r@ == hex_decoded(s@),
{
    match hex_decode(s) {
        Ok(v) => v,
        Err(_) => {
            assert(false);
            Vec::new()
        },
    }
}

/// Lower-case hex text of `b`.
pub fn bytes_to_hex(b: &[u8]) -> (r: String)
    ensures
        r@ == hex_encoded(b@),
{
    hex_encode(b)
}

// ---------------------------------------------------------------------
// Base64 (PSBT transport)
// ---------------------------------------------------------------------

/// What base64::encode returns for `b`.
pub uninterp spec fn base64_of(b: Seq<u8>) -> Seq<char>;

/// What base64::decode returns for `s`: the bytes, or nothing when it fails.
pub uninterp spec fn base64_decoded(s: Seq<char>) -> Option<Seq<u8>>;

#[verifier::external_type_specification]
#[verifier::external_body]
pub struct ExBase64DecodeError(base64::DecodeError);

/// Relies on base64::encode (standard alphabet, padded); it panics only when
/// the output length overflows `usize`.
#[verifier::external_body]
fn base64_encode(b: &[u8]) -> (r: String)
    requires
        b@.len() < usize::MAX / 2,
    ensures
        r@ == base64_of(b@),
{
    base64::encode(b)
}

/// Relies on base64::decode (standard alphabet).
#[verifier::external_body]
fn base64_decode(s: &str) -> (r: Result<Vec<u8>, base64::DecodeError>)
    ensures
        match r {
            Ok(v) => base64_decoded(s@) == Some(v@),
            Err(_) => base64_decoded(s@) is None,
        },
{
    base64::decode(s)
}

/// Base64 text of `b`.
pub fn bytes_to_base64(b: &[u8]) -> (r: String)
    requires
        b@.len() < usize::MAX / 2,
    ensures
        r@ == base64_of(b@),
{
    base64_encode(b)
}

/// Decodes base64 text; the text must decode.
pub fn base64_to_bytes(s: &str) -> (r: Vec<u8>)
    requires
        base64_decoded(s@) is Some,
    ensures
        Some(r@) == base64_decoded(s@),
{
    match base64_decode(s) {
        Ok(v) => v,
        Err(_) => {
            assert(false);
            Vec::new()
        },
    }
}

// ---------------------------------------------------------------------
// Base58
// ---------------------------------------------------------------------

/// What bs58::encode(..).into_string() returns for `b`.
pub uninterp spec fn base58_of(b: Seq<u8>) -> Seq<char>;

/// What bs58::decode(..).into_vec() returns for `s`: the bytes, or nothing when it fails.
pub uninterp spec fn base58_decoded(s: Seq<char>) -> Option<Seq<u8>>;

#[verifier::external_type_specification]
#[verifier::external_body]
pub struct ExBase58DecodeError(bs58::decode::Error);

/// Relies on bs58::encode(..).into_string() (Bitcoin alphabet). Base58 is a
/// bijection between byte strings and strings of its alphabet (each leading
/// zero byte becomes a leading '1'), so decoding the text gives `b` back. Its
/// buffer of `len + (len + 1) / 2` bytes must fit in `usize`.
#[verifier::external_body]
pub(crate) fn base58_encode(b: &[u8]) -> (r: String)
    requires
        b@.len() < usize::MAX / 2,
    ensures
        r@ == base58_of(b@),
        base58_decoded(r@) == Some(b@),
{
    bs58::encode(b).into_string()
}

/// Relies on bs58::decode(..).into_vec() (Bitcoin alphabet).
#[verifier::external_body]
pub(crate) fn base58_decode(s: &str) -> (r: Result<Vec<u8>, bs58::decode::Error>)
    ensures
        match r {
            Ok(v) => base58_decoded(s@) == Some(v@),
            Err(_) => base58_decoded(s@) is None,
        },
{
    bs58::decode(s).into_vec()
}

// ---------------------------------------------------------------------
// Transaction / PSBT detection
// ---------------------------------------------------------------------

/// What a transaction text holds.
#[derive(Clone, Copy, Debug, PartialEq, Eq, Structural)]
pub enum TxInputType {
    RawTransaction,
    Psbt,
}

/// Longer than four bytes and begins with the PSBT magic "psbt".
pub open spec fn is_psbt(data: Seq<u8>) -> bool {
    data.len() > 4 && data.subrange(0, 4) == seq![0x70u8, 0x73u8, 0x62u8, 0x74u8]
}

/// The text is hex, or else base64 that decodes.
pub open spec fn tx_text_ok(input: Seq<char>) -> bool {
    is_hex(input) || base64_decoded(input) is Some
}

/// The bytes of a transaction text: hex when it is hex, base64 otherwise.
pub open spec fn tx_text_bytes(input: Seq<char>) -> Seq<u8> {
    if is_hex(input) {
        hex_decoded(input)
    } else {
        base64_decoded(input)->Some_0
    }
}

/// PSBT magic bytes: 0x70736274 = "psbt".
pub fn is_psbt_bytes(data: &[u8]) -> (r: bool)
    ensures
        r == is_psbt(data@),
{
    if data.len() > 4 && data[0] == 0x70 && data[1] == 0x73 && data[2] == 0x62 && data[3] == 0x74 {
        assert(data@.subrange(0, 4) =~= seq![0x70u8, 0x73u8, 0x62u8, 0x74u8]);
        true
    } else {
        assert(data@.len() > 4 ==> data@.subrange(0, 4)[0] == data@[0] && data@.subrange(0, 4)[1]
            == data@[1] && data@.subrange(0, 4)[2] == data@[2] && data@.subrange(0, 4)[3]
            == data@[3]);
        false
    }
}

/// Accepts hex or base64 and returns the raw bytes.
pub fn parse_tx_or_psbt(input: &str) -> (r: Vec<u8>)
    requires
        tx_text_ok(input@),
    ensures
        r@ == tx_text_bytes(input@),
{
    match hex_decode(input) {
        Ok(bytes) => bytes,
        Err(_) => base64_to_bytes(input),
    }
}

/// Tells a PSBT from a raw transaction.
pub fn classify_tx(input: &str) -> (r: TxInputType)
    requires
        tx_text_ok(input@),
    ensures
        r == (if is_psbt(tx_text_bytes(input@)) {
            TxInputType::Psbt
        } else {
            TxInputType::RawTransaction
        }),
{
    let bytes = parse_tx_or_psbt(input);
    if is_psbt_bytes(bytes.as_slice()) {
        TxInputType::Psbt
    } else {
        TxInputType::RawTransaction
    }
}

/// Tells a PSBT from a raw transaction, or nothing when the text is neither
/// hex nor base64.
pub fn try_classify_tx(input: &str) -> (r: Option<TxInputType>)
    ensures
        tx_text_ok(input@) ==> r == Some(
            if is_psbt(tx_text_bytes(input@)) {
                TxInputType::Psbt
            } else {
                TxInputType::RawTransaction
            },
        ),
        !tx_text_ok(input@) ==> r is None,
{
    let readable = match hex_decode(input) {
        Ok(_) => true,
        Err(_) => match base64_decode(input) {
            Ok(_) => true,
            Err(_) => false,
        },
    };
    if readable {
        Some(classify_tx(input))
    } else {
        None
    }
}

} // verus!
