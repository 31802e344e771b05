use serde::de::DeserializeOwned;
use serde::Serialize;
use vstd::prelude::*;

verus! {

/// Calls `storekey::serialize`, which writes the key in a byte format whose
/// order is the order of the keys. What the bytes are depends on how the key's
/// type presents itself to the encoder, so nothing is claimed of the result.
#[verifier::external_body]
pub(crate) fn encode_key<K: Serialize>(key: &K) -> (encoded: Result<
    Vec<u8>,
    storekey::encode::Error,
>) {
    storekey::serialize(key)
}

/// Calls `rmp_serde::to_vec`, which writes the value as compact MessagePack.
/// Nothing is claimed of the result.
#[verifier::external_body]
pub(crate) fn encode_value<V: Serialize>(value: &V) -> (encoded: Result<
    Vec<u8>,
    rmp_serde::encode::Error,
>) {
    rmp_serde::to_vec(value)
}

/// Calls `rmp_serde::from_slice`, which reads one MessagePack value of the
/// expected type. Nothing is claimed of the result.
#[verifier::external_body]
pub(crate) fn decode_value<V: DeserializeOwned>(bytes: &Vec<u8>) -> (decoded: Result<
    V,
    rmp_serde::decode::Error,
>) {
    rmp_serde::from_slice(bytes.as_slice())
}

} // verus!
