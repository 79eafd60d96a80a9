//! The cryptography that the consensus rules take from other crates: SHA-256
//! and the aggregation of BLS public keys.

use blst::BLST_ERROR;
use sha2::Digest;
use vstd::prelude::*;

verus! {

/// A 32-byte value: a digest, a seed, or a block root.
pub type Bytes32 = [u8; 32];

/// A BLS public key in its compressed form.
pub type BlsPublicKey = [u8; 48];

/// The SHA-256 digest of `data`.
pub uninterp spec fn sha256_digest(data: Seq<u8>) -> Seq<u8>;

/// Calls `sha2::Sha256::digest`. The digest is a function of the input bytes
/// alone; it is named by `sha256_digest` and nothing more is claimed of it.
#[verifier::external_body]
pub(crate) fn sha256(data: &[u8]) -> (digest: Bytes32)
    ensures
        digest@ == sha256_digest(data@),
{
    sha2::Sha256::digest(data).into()
}

/// The error codes of `blst`. A code is carried through as it is: nothing
/// here looks inside it.
#[verifier::external_type_specification]
#[verifier::external_body]
pub struct ExBlstError(BLST_ERROR);

/// The bytes of each key of a list.
pub open spec fn key_bytes(keys: Seq<BlsPublicKey>) -> Seq<Seq<u8>> {
    Seq::new(keys.len(), |k: int| keys[k]@)
}

/// What `blst` returns for the aggregation of a list of serialized public
/// keys, each of them validated first where `validate` is set.
pub uninterp spec fn blst_aggregate(keys: Seq<Seq<u8>>, validate: bool) -> Result<
    Seq<u8>,
    BLST_ERROR,
>;

/// Calls `blst::min_pk::AggregatePublicKey::aggregate_serialized` and
/// compresses the sum. The outcome is a function of the key bytes and of
/// `validate` alone and is named by `blst_aggregate`; an empty list is
/// rejected.
#[verifier::external_body]
pub(crate) fn aggregate_serialized(keys: &Vec<BlsPublicKey>, validate: bool) -> (result: Result<
    BlsPublicKey,
    BLST_ERROR,
>)
    ensures
        match result {
            Ok(sum) => blst_aggregate(key_bytes(keys@), validate) == Ok::<Seq<u8>, BLST_ERROR>(
                sum@,
            ),
            Err(code) => blst_aggregate(key_bytes(keys@), validate) == Err::<Seq<u8>, BLST_ERROR>(
                code,
            ),
        },
        keys.len() == 0 ==> result is Err,
{
    let serialized: Vec<&[u8]> = keys.iter().map(|key| key.as_slice()).collect();
    match blst::min_pk::AggregatePublicKey::aggregate_serialized(&serialized, validate) {
        Ok(sum) => Ok(sum.to_public_key().to_bytes()),
        Err(code) => Err(code),
    }
}

} // verus!
