//! SS58 address codec: a network prefix byte and a 32-byte account identifier
//! are joined, a two-byte keyed-hash checksum is appended, and the result is
//! rendered in base-58 text. Decoding reverses the steps and rejects any
//! string whose checksum, length or prefix does not match.

use vstd::prelude::*;
use vstd::string::StringSliceAdditionalSpecFns;

verus! {

/// The chains this exporter knows how to label and address.
#[derive(Clone, Copy, Debug, PartialEq, Eq, Structural)]
pub enum Network {
    Polkadot,
    Kusama,
    Avail,
}

/// The SS58 prefix byte registered for each supported network.
pub open spec fn spec_address_prefix(n: Network) -> u8 {
    match n {
        Network::Polkadot => 0,
        Network::Kusama => 2,
        Network::Avail => 42,
    }
}

/// The SS58 prefix byte registered for each supported network.
pub fn address_prefix(network: &Network) -> (p: u8)
    ensures
        p == spec_address_prefix(*network),
{
    match network {
        Network::Polkadot => 0,
        Network::Kusama => 2,
        Network::Avail => 42,
    }
}

/// A raw 32-byte account identifier.
#[derive(Clone, Copy, Debug)]
pub struct AccountId(pub [u8; 32]);

impl View for AccountId {
    type V = Seq<u8>;

    open spec fn view(&self) -> Seq<u8> {
        self.0@
    }
}

impl PartialEq for AccountId {
    fn eq(&self, other: &AccountId) -> (r: bool) {
        let mut i: usize = 0;
        let mut same = true;
        while i < 32
            invariant
                i <= 32,
                same == (forall|k: int| 0 <= k < i ==> self.0@[k] == #[trigger] other.0@[k]),
            decreases 32 - i,
        {
            if self.0[i] != other.0[i] {
                same = false;
            }
            i = i + 1;
        }
        proof {
            if (forall|k: int| 0 <= k < 32 ==> self.0@[k] == #[trigger] other.0@[k]) {
                assert(self.0@ =~= other.0@);
            }
        }
        same
    }
}

impl vstd::std_specs::cmp::PartialEqSpecImpl for AccountId {
    open spec fn obeys_eq_spec() -> bool {
        true
    }

    open spec fn eq_spec(&self, other: &AccountId) -> bool {
        self@ == other@
    }
}

/// The seven context bytes mixed into every SS58 checksum hash.
pub open spec fn ss58_context() -> Seq<u8> {
    seq![83u8, 83u8, 53u8, 56u8, 80u8, 82u8, 69u8]
}

/// What the blake2b-512 digest of a byte string is. The digest is a function
/// of the input alone; only its first two bytes enter an SS58 address.
pub uninterp spec fn blake2b512_of(input: Seq<u8>) -> Seq<u8>;

/// What the base-58 rendering of a byte string is.
pub uninterp spec fn base58_of(bytes: Seq<u8>) -> Seq<char>;

/// What a base-58 string decodes to, when it decodes at all.
pub uninterp spec fn base58_decode_of(s: Seq<char>) -> Seq<u8>;

/// Relies on blake2's `Blake2b512` (through the `digest` traits): the digest
/// depends on the input bytes alone and is 64 bytes long.
#[verifier::external_body]
fn blake2b512(input: &Vec<u8>) -> (r: Vec<u8>)
    ensures
        r@ == blake2b512_of(input@),
        r@.len() == 64,
{
    let mut hasher = <blake2::Blake2b512 as blake2::Digest>::new();
    blake2::Digest::update(&mut hasher, input.as_slice());
    blake2::Digest::finalize(hasher).as_slice().to_vec()
}

/// Relies on base58's `ToBase58` for `[u8]`: the rendering depends on the
/// bytes alone. The crate documents its conversion as correct only up to
/// 128 input bytes, so longer inputs are kept out.
#[verifier::external_body]
fn bytes_to_base58(bytes: &Vec<u8>) -> (r: String)
    requires
        bytes@.len() <= 128,
    ensures
        r@ == base58_of(bytes@),
{
    base58::ToBase58::to_base58(bytes.as_slice())
}

/// One of the 58 characters of the base-58 alphabet (digits and letters
/// without 0, O, I and l).
pub open spec fn is_base58_char(c: char) -> bool {
    ('1' <= c && c <= '9') || ('A' <= c && c <= 'H') || ('J' <= c && c <= 'N') || ('P' <= c && c
        <= 'Z') || ('a' <= c && c <= 'k') || ('m' <= c && c <= 'z')
}

/// Every character of the string is a base-58 character.
pub open spec fn is_base58_str(s: Seq<char>) -> bool {
    forall|i: int| 0 <= i < s.len() ==> is_base58_char(#[trigger] s[i])
}

/// Relies on base58's `FromBase58` for `str`: for inputs of at most 132
/// bytes it returns bytes that depend on the string alone, and it fails
/// exactly when some character is outside the base-58 alphabet.
#[verifier::external_body]
fn base58_to_bytes(s: &str) -> (r: Option<Vec<u8>>)
    requires
        s.spec_bytes().len() <= 132,
    ensures
        r matches Some(b) ==> b@ == base58_decode_of(s@),
        (r is Some) == is_base58_str(s@),
{
    match base58::FromBase58::from_base58(s) {
        Ok(v) => Some(v),
        Err(_) => None,
    }
}

/// The full byte form of an address: prefix, account, two checksum bytes.
pub open spec fn ss58_payload(prefix: u8, account: Seq<u8>) -> Seq<u8> {
    let body = seq![prefix] + account;
    body + blake2b512_of(ss58_context() + body).take(2)
}

/// The textual address for an account under a network prefix.
pub open spec fn ss58_address_of(prefix: u8, account: Seq<u8>) -> Seq<char> {
    base58_of(ss58_payload(prefix, account))
}

/// Render an account identifier as a checksummed SS58 address for the given
/// network.
pub fn serialize_address(network: &Network, account_id: &AccountId) -> (r: String)
    ensures
        r@ == ss58_address_of(spec_address_prefix(*network), account_id@),
{
    let prefix = address_prefix(network);
    let mut payload: Vec<u8> = Vec::new();
    payload.push(prefix);
    let mut i: usize = 0;
    while i < 32
        invariant
            i <= 32,
            payload@ == seq![prefix] + account_id.0@.take(i as int),
        decreases 32 - i,
    {
        payload.push(account_id.0[i]);
        proof {
            assert(account_id.0@.take(i as int).push(account_id.0@[i as int]) =~= account_id.0@.take(
                i + 1,
            ));
        }
        i = i + 1;
    }
    proof {
        assert(account_id.0@.take(32) =~= account_id.0@);
    }
    let mut hash_input: Vec<u8> = Vec::new();
    hash_input.push(83);
    hash_input.push(83);
    hash_input.push(53);
    hash_input.push(56);
    hash_input.push(80);
    hash_input.push(82);
    hash_input.push(69);
    proof {
        assert(hash_input@ =~= ss58_context());
    }
    let mut j: usize = 0;
    while j < payload.len()
        invariant
            j <= payload@.len(),
            payload@ == seq![prefix] + account_id@,
            hash_input@ == ss58_context() + payload@.take(j as int),
        decreases payload@.len() - j,
    {
        hash_input.push(payload[j]);
        proof {
            assert(ss58_context() + payload@.take(j as int).push(payload@[j as int]) =~= ss58_context()
                + payload@.take(j + 1));
        }
        j = j + 1;
    }
    proof {
        assert(payload@.take(payload@.len() as int) =~= payload@);
    }
    let digest = blake2b512(&hash_input);
    payload.push(digest[0]);
    payload.push(digest[1]);
    proof {
        assert(payload@ =~= ss58_payload(prefix, account_id@)) by {
            assert(blake2b512_of(ss58_context() + (seq![prefix] + account_id@)).take(2) =~= seq![
                blake2b512_of(ss58_context() + (seq![prefix] + account_id@))[0],
                blake2b512_of(ss58_context() + (seq![prefix] + account_id@))[1],
            ]);
        }
    }
    bytes_to_base58(&payload)
}

/// Why an address string was rejected.
#[derive(Clone, Copy, Debug, PartialEq, Eq, Structural)]
pub enum AddressError {
    /// Longer than the 132 bytes the base-58 decoder handles.
    TooLong,
    /// A character outside the base-58 alphabet.
    NotBase58,
    /// The decoded payload is not prefix + 32 account bytes + 2 checksum bytes.
    WrongLength,
    /// The prefix byte does not match the requested network.
    WrongPrefix,
    /// The checksum bytes do not match the payload's hash.
    BadChecksum,
}

/// The two checksum bytes of the payload match its body's hash.
pub open spec fn ss58_checksum_ok(bytes: Seq<u8>) -> bool {
    bytes.subrange(33, 35) == blake2b512_of(ss58_context() + bytes.take(33)).take(2)
}

/// Parse a textual SS58 address for the given network back into the raw
/// account identifier, rejecting malformed or mis-checksummed strings.
pub fn parse_address(network: &Network, s: &str) -> (r: Result<AccountId, AddressError>)
    ensures
        ({
            let prefix = spec_address_prefix(*network);
            let decoded = base58_decode_of(s@);
            match r {
                Ok(a) => s.spec_bytes().len() <= 132 && is_base58_str(s@) && decoded.len() == 35
                    && decoded[0] == prefix && ss58_checksum_ok(decoded) && a@ == decoded.subrange(
                    1,
                    33,
                ),
                Err(AddressError::TooLong) => s.spec_bytes().len() > 132,
                Err(AddressError::NotBase58) => s.spec_bytes().len() <= 132 && !is_base58_str(s@),
                Err(AddressError::WrongLength) => s.spec_bytes().len() <= 132 && is_base58_str(s@)
                    && decoded.len() != 35,
                Err(AddressError::WrongPrefix) => s.spec_bytes().len() <= 132 && is_base58_str(s@)
                    && decoded.len() == 35 && decoded[0] != prefix,
                Err(AddressError::BadChecksum) => s.spec_bytes().len() <= 132 && is_base58_str(s@)
                    && decoded.len() == 35 && decoded[0] == prefix && !ss58_checksum_ok(decoded),
            }
        }),
{
    let raw_bytes = s.as_bytes();
    if raw_bytes.len() > 132 {
        return Err(AddressError::TooLong);
    }
    let decoded = match base58_to_bytes(s) {
        Some(b) => b,
        None => {
            return Err(AddressError::NotBase58);
        },
    };
    if decoded.len() != 35 {
        return Err(AddressError::WrongLength);
    }
    let prefix = address_prefix(network);
    if decoded[0] != prefix {
        return Err(AddressError::WrongPrefix);
    }
    let mut hash_input: Vec<u8> = Vec::new();
    hash_input.push(83);
    hash_input.push(83);
    hash_input.push(53);
    hash_input.push(56);
    hash_input.push(80);
    hash_input.push(82);
    hash_input.push(69);
    proof {
        assert(hash_input@ =~= ss58_context());
    }
    let mut j: usize = 0;
    while j < 33
        invariant
            j <= 33,
            decoded@.len() == 35,
            decoded@ == base58_decode_of(s@),
            hash_input@ == ss58_context() + decoded@.take(j as int),
        decreases 33 - j,
    {
        hash_input.push(decoded[j]);
        proof {
            assert(decoded@.take(j as int).push(decoded@[j as int]) =~= decoded@.take(j + 1));
        }
        j = j + 1;
    }
    let digest = blake2b512(&hash_input);
    let checksum_ok = decoded[33] == digest[0] && decoded[34] == digest[1];
    proof {
        let d = decoded@;
        let h = blake2b512_of(ss58_context() + d.take(33));
        assert(checksum_ok == (d.subrange(33, 35) == h.take(2))) by {
            if checksum_ok {
                assert(d.subrange(33, 35) =~= h.take(2));
            } else {
                if d.subrange(33, 35) =~= h.take(2) {
                    assert(d.subrange(33, 35)[0] == h.take(2)[0]);
                    assert(d.subrange(33, 35)[1] == h.take(2)[1]);
                }
            }
        }
    }
    if !checksum_ok {
        return Err(AddressError::BadChecksum);
    }
    let mut account: [u8; 32] = [0u8; 32];
    let mut i: usize = 0;
    while i < 32
        invariant
            i <= 32,
            decoded@.len() == 35,
            decoded@ == base58_decode_of(s@),
            account@.len() == 32,
            account@.take(i as int) == decoded@.subrange(1, 1 + i as int),
        decreases 32 - i,
    {
        account[i] = decoded[i + 1];
        proof {
            assert(account@.take(i + 1) =~= decoded@.subrange(1, 1 + i + 1 as int));
        }
        i = i + 1;
    }
    proof {
        assert(account@.take(32) =~= account@);
        assert(account@ =~= decoded@.subrange(1, 33));
    }
    Ok(AccountId(account))
}

} // verus!
