use vstd::prelude::*;

use crate::bytes::copy_range;
use crate::common::{CommonError, CommonResult, ErrorKind};
use crate::osrand::random_bytes;

verus! {

/// Steps of the SHA-512 derivation chain tried before giving up. Each
/// candidate is accepted with probability near 1/16, so exhausting the chain
/// has negligible probability; the bound exists only to keep the search
/// finite.
pub const DERIVE_FUEL: usize = 10000;

/// Samples drawn from the random source before giving up, with the same
/// rationale as [`DERIVE_FUEL`].
pub const SAMPLE_FUEL: usize = 10000;

/// True of byte sequences that the key-exchange group accepts as a private
/// key: the canonical 32-byte encoding of a nonzero Ristretto255 scalar.
pub uninterp spec fn is_valid_scalar(bytes: Seq<u8>) -> bool;

/// The SHA-512 digest of a byte sequence.
pub uninterp spec fn sha512_of(bytes: Seq<u8>) -> Seq<u8>;

/// Relies on opaque_ke::keypair::KeyPair::<Ristretto255>::from_private_key_slice
/// and SecretKey::serialize: the parser accepts exactly the canonical 32-byte
/// encodings of nonzero scalars, and re-serializing an accepted key returns
/// the input bytes unchanged.
#[verifier::external_body]
fn try_parse_private_key(bytes: &Vec<u8>) -> (r: Option<Vec<u8>>)
    ensures
        r is Some <==> is_valid_scalar(bytes@),
        r is Some ==> r->0@ == bytes@ && bytes@.len() == 32,
{
    match opaque_ke::keypair::KeyPair::<opaque_ke::Ristretto255>::from_private_key_slice(
        bytes.as_slice(),
    ) {
        Ok(pair) => Some(opaque_ke::keypair::SecretKey::<
            opaque_ke::Ristretto255,
        >::serialize(pair.private()).to_vec()),
        Err(_) => None,
    }
}

/// Relies on sha2::Sha512::digest: a pure function of its input with a
/// 64-byte output.
#[verifier::external_body]
fn sha512(bytes: &Vec<u8>) -> (r: Vec<u8>)
    ensures
        r@ == sha512_of(bytes@),
        r@.len() == 64,
{
    <sha2::Sha512 as sha2::Digest>::digest(bytes.as_slice()).to_vec()
}

/// The n-th seed of the derivation chain for input `k`: SHA-512 applied
/// n + 1 times to `k`.
pub open spec fn nth_seed(k: Seq<u8>, n: nat) -> Seq<u8>
    decreases n,
{
    if n == 0 {
        sha512_of(k)
    } else {
        sha512_of(nth_seed(k, (n - 1) as nat))
    }
}

/// The length of a serialized private key of the key-exchange group.
pub const SCALAR_LEN: usize = 32;

/// The candidate key drawn from the n-th seed: its leading 32 bytes.
pub open spec fn candidate_at(k: Seq<u8>, n: nat) -> Seq<u8> {
    nth_seed(k, n).subrange(0, SCALAR_LEN as int)
}

/// Step n of the chain yielded no key: either the seed is too short to cut a
/// candidate from, or the candidate is not a valid scalar encoding.
pub open spec fn candidate_rejected(k: Seq<u8>, n: nat) -> bool {
    nth_seed(k, n).len() >= SCALAR_LEN ==> !is_valid_scalar(candidate_at(k, n))
}

/// `r` is the first valid candidate of the derivation chain for `k`.
pub open spec fn derived_key(k: Seq<u8>, r: Seq<u8>) -> bool {
    exists|n: nat|
        {
            &&& nth_seed(k, n).len() >= SCALAR_LEN
            &&& is_valid_scalar(candidate_at(k, n))
            &&& r == candidate_at(k, n)
            &&& forall|m: nat| m < n ==> #[trigger] candidate_rejected(k, m)
        }
}

/// Maps an arbitrary secret to a canonical private key of the key-exchange
/// group. A valid encoding is returned unchanged; anything else enters a
/// deterministic SHA-512 derivation chain whose first valid candidate is
/// returned, so equal inputs always yield equal keys. The chain is cut off
/// after [`DERIVE_FUEL`] rejected candidates.
pub fn canonicalize_private_key(secret_key: &Vec<u8>) -> (r: CommonResult<Vec<u8>>)
    ensures
        is_valid_scalar(secret_key@) ==> r is Ok && r->Ok_0@ == secret_key@,
        r is Ok ==> is_valid_scalar(r->Ok_0@) && r->Ok_0@.len() == 32,
        r is Ok && !is_valid_scalar(secret_key@) ==> derived_key(secret_key@, r->Ok_0@),
        r is Err ==> {
            &&& r->Err_0.kind == ErrorKind::ProtocolFailure
            &&& !is_valid_scalar(secret_key@)
            &&& forall|m: nat| m < DERIVE_FUEL ==> #[trigger] candidate_rejected(secret_key@, m)
        },
        (!is_valid_scalar(secret_key@) && (forall|m: nat|
            m < DERIVE_FUEL ==> #[trigger] candidate_rejected(secret_key@, m))) ==> r is Err,
{
    if let Some(key) = try_parse_private_key(secret_key) {
        return Ok(key);
    }
    let key_len = SCALAR_LEN;
    let mut seed = sha512(secret_key);
    let mut j: usize = 0;
    while j < DERIVE_FUEL
        invariant
            key_len == SCALAR_LEN,
            !is_valid_scalar(secret_key@),
            j <= DERIVE_FUEL,
            seed@ == nth_seed(secret_key@, j as nat),
            forall|m: nat| m < j ==> #[trigger] candidate_rejected(secret_key@, m),
        decreases DERIVE_FUEL - j,
    {
        if seed.len() >= key_len {
            let cand = copy_range(&seed, 0, key_len);
            if let Some(key) = try_parse_private_key(&cand) {
                proof {
                    assert(cand@ == candidate_at(secret_key@, j as nat));
                    assert(derived_key(secret_key@, key@));
                    assert(!candidate_rejected(secret_key@, j as nat));
                }
                return Ok(key);
            }
        }
        seed = sha512(&seed);
        proof {
            assert(candidate_rejected(secret_key@, j as nat));
        }
        j = j + 1;
    }
    Err(CommonError::new(ErrorKind::ProtocolFailure, "unable to derive a private key"))
}

/// Law: the derivation chain pins one key, so canonicalization is a function
/// of its input. Two keys derived from the same secret are the same key, and
/// with the unchanged-when-valid clause, equal secrets always canonicalize to
/// equal setups.
pub proof fn lemma_derived_key_unique(k: Seq<u8>, r1: Seq<u8>, r2: Seq<u8>)
    requires
        derived_key(k, r1),
        derived_key(k, r2),
    ensures
        r1 == r2,
{
    let n1 = choose|n: nat|
        {
            &&& nth_seed(k, n).len() >= SCALAR_LEN
            &&& is_valid_scalar(candidate_at(k, n))
            &&& r1 == candidate_at(k, n)
            &&& forall|m: nat| m < n ==> #[trigger] candidate_rejected(k, m)
        };
    let n2 = choose|n: nat|
        {
            &&& nth_seed(k, n).len() >= SCALAR_LEN
            &&& is_valid_scalar(candidate_at(k, n))
            &&& r2 == candidate_at(k, n)
            &&& forall|m: nat| m < n ==> #[trigger] candidate_rejected(k, m)
        };
    if n1 < n2 {
        assert(candidate_rejected(k, n1));
    } else if n2 < n1 {
        assert(candidate_rejected(k, n2));
    }
}

/// Draws a fresh private key of the given length from the operating system's
/// random source, retrying (up to [`SAMPLE_FUEL`] times) until the group
/// accepts the encoding.
pub fn random_fake_private_key(key_len: usize) -> (r: CommonResult<Vec<u8>>)
    ensures
        r is Ok ==> is_valid_scalar(r->Ok_0@) && r->Ok_0@.len() == key_len,
        r is Err ==> r->Err_0.kind == ErrorKind::CryptoFailure,
{
    let mut j: usize = 0;
    while j < SAMPLE_FUEL
        invariant
            j <= SAMPLE_FUEL,
        decreases SAMPLE_FUEL - j,
    {
        let candidate = random_bytes(key_len);
        if let Some(key) = try_parse_private_key(&candidate) {
            return Ok(key);
        }
        j = j + 1;
    }
    Err(CommonError::new(ErrorKind::CryptoFailure, "unable to sample a private key"))
}

} // verus!
