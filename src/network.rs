use vstd::prelude::*;

verus! {

/// The two networks that the wallet can address.
#[derive(Clone, Copy, Debug, PartialEq, Eq, Structural)]
pub enum Network {
    Mainnet,
    Testnet,
}

/// Version byte of a pay-to-public-key-hash Base58Check address.
pub open spec fn spec_p2pkh_prefix(n: Network) -> u8 {
    match n {
        Network::Mainnet => 0x14,
        Network::Testnet => 0x53,
    }
}

/// Version byte of a pay-to-script-hash Base58Check address.
pub open spec fn spec_p2sh_prefix(n: Network) -> u8 {
    match n {
        Network::Mainnet => 0x0A,
        Network::Testnet => 0xC5,
    }
}

/// Version byte of a private key in wallet import format.
pub open spec fn spec_wif_prefix(n: Network) -> u8 {
    match n {
        Network::Mainnet => 0x7B,
        Network::Testnet => 0xF0,
    }
}

/// Human-readable part of a witness address.
pub open spec fn spec_bech32_hrp(n: Network) -> Seq<char> {
    match n {
        Network::Mainnet => seq!['m', 'w', 'c'],
        Network::Testnet => seq!['t', 'm', 'w', 'c'],
    }
}

/// `s` begins with `prefix`.
pub open spec fn starts_with(s: Seq<char>, prefix: Seq<char>) -> bool {
    prefix.len() <= s.len() && s.subrange(0, prefix.len() as int) == prefix
}

impl Network {
    pub open spec fn from_flag_spec(mainnet: bool) -> Network {
        if mainnet {
            Network::Mainnet
        } else {
            Network::Testnet
        }
    }

    /// The network that `mainnet` selects.
    pub fn from_flag(mainnet: bool) -> (r: Network)
        ensures
            r == Network::from_flag_spec(mainnet),
    {
        if mainnet {
            Network::Mainnet
        } else {
            Network::Testnet
        }
    }

    /// P2PKH Base58 prefix.
    pub fn p2pkh_prefix(self) -> (r: u8)
        ensures
            r == spec_p2pkh_prefix(self),
    {
        match self {
            Network::Mainnet => 0x14,
            Network::Testnet => 0x53,
        }
    }

    /// P2SH Base58 prefix.
    pub fn p2sh_prefix(self) -> (r: u8)
        ensures
            r == spec_p2sh_prefix(self),
    {
        match self {
            Network::Mainnet => 0x0A,
            Network::Testnet => 0xC5,
        }
    }

    /// WIF private key prefix.
    pub fn wif_prefix(self) -> (r: u8)
        ensures
            r == spec_wif_prefix(self),
    {
        match self {
            Network::Mainnet => 0x7B,
            Network::Testnet => 0xF0,
        }
    }

    /// Bech32 human-readable part (segwit v0 and later).
    pub fn bech32_hrp(self) -> (r: &'static str)
        ensures
            r@ == spec_bech32_hrp(self),
    {
        match self {
            Network::Mainnet => {
                proof {
                    reveal_strlit("mwc");
                }
                assert("mwc"@ =~= seq!['m', 'w', 'c']);
                "mwc"
            },
            Network::Testnet => {
                proof {
                    reveal_strlit("tmwc");
                }
                assert("tmwc"@ =~= seq!['t', 'm', 'w', 'c']);
                "tmwc"
            },
        }
    }

    /// True when `addr` begins with this network's human-readable part.
    pub fn matches_bech32(self, addr: &str) -> (r: bool)
        ensures
            r == starts_with(addr@, spec_bech32_hrp(self)),
    {
        str_starts_with(addr, self.bech32_hrp())
    }
}

/// Character-wise prefix test.
pub fn str_starts_with(s: &str, prefix: &str) -> (r: bool)
    ensures
        r == starts_with(s@, prefix@),
{
    let n = prefix.unicode_len();
    let m = s.unicode_len();
    if n > m {
        return false;
    }
    let mut i: usize = 0;
    while i < n
        invariant
            n == prefix@.len(),
            m == s@.len(),
            n <= m,
            i <= n,
            forall|j: int| 0 <= j < i ==> s@[j] == prefix@[j],
        decreases n - i,
    {
        if s.get_char(i) != prefix.get_char(i) {
            assert(s@.subrange(0, n as int)[i as int] != prefix@[i as int]);
            return false;
        }
        i = i + 1;
    }
    assert(s@.subrange(0, n as int) =~= prefix@);
    true
}

} // verus!
