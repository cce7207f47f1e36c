use vstd::prelude::*;

verus! {

/// Every value is a 5-bit group.
pub open spec fn all_u5(d: Seq<u8>) -> bool {
    forall|i: int| 0 <= i < d.len() ==> #[trigger] d[i] < 32
}

pub open spec fn is_lower_ascii(c: char) -> bool {
    'a' <= c && c <= 'z'
}

pub open spec fn is_upper_ascii(c: char) -> bool {
    'A' <= c && c <= 'Z'
}

/// A human-readable part that Bech32 accepts: 1 to 83 printable ASCII
/// characters, not mixing upper and lower case.
pub open spec fn hrp_valid(hrp: Seq<char>) -> bool {
    &&& 1 <= hrp.len() <= 83
    &&& forall|i: int| 0 <= i < hrp.len() ==> '!' <= #[trigger] hrp[i] && hrp[i] <= '~'
    &&& !((exists|i: int| 0 <= i < hrp.len() && is_lower_ascii(#[trigger] hrp[i])) && (exists|
        i: int,
    |
        0 <= i < hrp.len() && is_upper_ascii(#[trigger] hrp[i])))
}

/// What `ToBase32::to_base32` gives for `b`: its bits regrouped by five, zero-padded.
pub uninterp spec fn base32_of(b: Seq<u8>) -> Seq<u8>;

/// What `FromBase32::from_base32` gives for the 5-bit groups `d`: the bytes,
/// or nothing when the padding is not zero or too long.
pub uninterp spec fn from_base32_of(d: Seq<u8>) -> Option<Seq<u8>>;

/// What `bech32::encode` gives for a valid human-readable part and 5-bit data
/// (Bech32 variant, checksum appended).
pub uninterp spec fn bech32_of(hrp: Seq<char>, data: Seq<u8>) -> Seq<char>;

/// What `bech32::decode` gives for `s`: the lower-cased human-readable part
/// and the 5-bit data without checksum, or nothing when it fails.
pub uninterp spec fn bech32_decoded(s: Seq<char>) -> Option<(Seq<char>, Seq<u8>)>;

#[verifier::external_type_specification]
#[verifier::external_body]
pub struct ExBech32Error(::bech32::Error);

/// Relies on bech32's `ToBase32::to_base32`; every `u5` it yields is below 32.
#[verifier::external_body]
fn to_base32(b: &[u8]) -> (r: Vec<u8>)
    ensures
        r@ == base32_of(b@),
        all_u5(r@),
{
    ::bech32::ToBase32::to_base32(&b).into_iter().map(|x| x.to_u8()).collect()
}

/// Relies on bech32's `FromBase32::from_base32` for `Vec<u8>`; the data is
/// turned into `u5` values first, which succeeds as they are below 32.
#[verifier::external_body]
fn from_base32(d: &[u8]) -> (r: Result<Vec<u8>, ::bech32::Error>)
    requires
        all_u5(d@),
    ensures
        match r {
            Ok(v) => from_base32_of(d@) == Some(v@),
            Err(_) => from_base32_of(d@) is None,
        },
{
    let d5: Vec<::bech32::u5> = ::bech32::CheckBase32::check_base32(d)?;
    <Vec<u8> as ::bech32::FromBase32>::from_base32(&d5)
}

/// Relies on `bech32::encode` with the Bech32 variant: it fails exactly when
/// the human-readable part is rejected by its check (length 1 to 83,
/// characters 33 to 126, one case). The data is turned into `u5` values
/// first, which succeeds as they are below 32.
#[verifier::external_body]
fn bech32_encode(hrp: &str, data: &[u8]) -> (r: Result<String, ::bech32::Error>)
    requires
        all_u5(data@),
    ensures
        r is Ok <==> hrp_valid(hrp@),
        r is Ok ==> r->Ok_0@ == bech32_of(hrp@, data@),
{
    let d5: Vec<::bech32::u5> = ::bech32::CheckBase32::check_base32(data)?;
    ::bech32::encode(hrp, d5, ::bech32::Variant::Bech32)
}

/// Relies on `bech32::decode`; the variant it reports is dropped and the
/// `u5` values are turned into bytes below 32.
#[verifier::external_body]
fn bech32_decode(s: &str) -> (r: Result<(String, Vec<u8>), ::bech32::Error>)
    ensures
        match r {
            Ok((h, d)) => bech32_decoded(s@) == Some((h@, d@)) && all_u5(d@),
            Err(_) => bech32_decoded(s@) is None,
        },
{
    match ::bech32::decode(s) {
        Ok((h, d, _)) => Ok((h, d.into_iter().map(|x| x.to_u8()).collect())),
        Err(e) => Err(e),
    }
}

/// The data part of a segwit address: the witness version, then the program
/// in 5-bit groups.
pub open spec fn segwit_data(witver: u8, witprog: Seq<u8>) -> Seq<u8> {
    seq![witver] + base32_of(witprog)
}

/// What a segwit address decodes to: human-readable part, witness version and
/// program; nothing when the text is not Bech32, carries no data, or its
/// program has bad padding.
pub open spec fn segwit_decoded(addr: Seq<char>) -> Option<(Seq<char>, u8, Seq<u8>)> {
    match bech32_decoded(addr) {
        Some((hrp, data)) => if data.len() == 0 {
            None
        } else {
            match from_base32_of(data.drop_first()) {
                Some(prog) => Some((hrp, data[0], prog)),
                None => None,
            }
        },
        None => None,
    }
}

/// Bech32 text of a witness version and program.
pub fn encode_segwit(hrp: &str, witver: u8, witprog: &[u8]) -> (r: String)
    requires
        hrp_valid(hrp@),
        witver < 32,
    ensures
        r@ == bech32_of(hrp@, segwit_data(witver, witprog@)),
{
    let mut data: Vec<u8> = Vec::new();
    data.push(witver);
    let mut prog = to_base32(witprog);
    data.append(&mut prog);
    assert(data@ =~= segwit_data(witver, witprog@));
    match bech32_encode(hrp, data.as_slice()) {
        Ok(s) => s,
        Err(_) => {
            assert(false);
            String::new()
        },
    }
}

/// Splits a Bech32 address into human-readable part, witness version and program.
pub fn decode_segwit(addr: &str) -> (r: Option<(String, u8, Vec<u8>)>)
    ensures
        match r {
            Some((h, v, p)) => segwit_decoded(addr@) == Some((h@, v, p@)),
            None => segwit_decoded(addr@) is None,
        },
{
    let (hrp, data) = match bech32_decode(addr) {
        Ok(x) => x,
        Err(_) => return None,
    };
    if data.len() == 0 {
        return None;
    }
    let witver = data[0];
    let mut rest: Vec<u8> = Vec::new();
    let mut i: usize = 1;
    while i < data.len()
        invariant
            1 <= i <= data@.len(),
            rest@ == data@.subrange(1, i as int),
        decreases data@.len() - i,
    {
        rest.push(data[i]);
        assert(data@.subrange(1, i + 1) =~= data@.subrange(1, i as int).push(data@[i as int]));
        i = i + 1;
    }
    assert(rest@ =~= data@.drop_first());
    match from_base32(rest.as_slice()) {
        Ok(prog) => Some((hrp, witver, prog)),
        Err(_) => None,
    }
}

} // verus!
