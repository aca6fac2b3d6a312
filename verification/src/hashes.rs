//! The tamper-evident hash the engine relies on: SHA-256, and the doubled
//! variant Bitcoin uses for transaction identifiers and signature hashes.
//!
//! The digest itself is computed by an outside library; its value is only
//! named here, so everything the engine proves about hashes is phrased as
//! "the digest of these exact bytes".

use vstd::prelude::*;

verus! {

/// The SHA-256 digest of a byte string. The digest is a function of the
/// input bytes alone; its value is not further specified here.
pub uninterp spec fn sha256_of(data: Seq<u8>) -> Seq<u8>;

/// The doubled SHA-256 digest, used for transaction identifiers and
/// signature hashes.
pub open spec fn dsha256_of(data: Seq<u8>) -> Seq<u8> {
    sha256_of(sha256_of(data))
}

/// Relies on `bitcoin::hashes::sha256::Hash::hash`: the digest is a pure
/// function of the input bytes, and is 32 bytes long.
#[verifier::external_body]
pub(crate) fn sha256(data: &Vec<u8>) -> (r: Vec<u8>)
    ensures
        r@ == sha256_of(data@),
        r@.len() == 32,
{
    let digest = <bitcoin::hashes::sha256::Hash as bitcoin::hashes::Hash>::hash(data.as_slice());
    <bitcoin::hashes::sha256::Hash as bitcoin::hashes::Hash>::to_byte_array(digest).to_vec()
}

/// The doubled SHA-256 digest of `data`, as a 32-byte vector.
pub(crate) fn dsha256(data: &Vec<u8>) -> (r: Vec<u8>)
    ensures
        r@ == dsha256_of(data@),
        r@.len() == 32,
{
    let once = sha256(data);
    sha256(&once)
}

} // verus!
