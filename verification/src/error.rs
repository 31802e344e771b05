use vstd::prelude::*;
use vstd::std_specs::convert::FromSpecImpl;

verus! {

/// The failure reported by `storekey::serialize`. Nothing is known of its contents.
#[verifier::external_type_specification]
#[verifier::external_body]
pub struct ExKeyEncodeFailure(storekey::encode::Error);

/// The failure reported by `rmp_serde::to_vec`. Nothing is known of its contents.
#[verifier::external_type_specification]
#[verifier::external_body]
pub struct ExValueEncodeFailure(rmp_serde::encode::Error);

/// The failure reported by `rmp_serde::from_slice`. Nothing is known of its contents.
#[verifier::external_type_specification]
#[verifier::external_body]
pub struct ExValueDecodeFailure(rmp_serde::decode::Error);

/// Everything that can go wrong between a typed call and the storage engine.
///
/// Each variant carries its cause. No operation of this crate retries, logs or
/// panics on any of them: they are handed to the caller as they are.
#[derive(Debug)]
pub enum DatasetError {
    /// The storage engine failed; the payload is the engine's own message.
    RocksdbError(String),
    /// The store was opened without the column family of this name.
    CFNotFound(String),
    /// The key could not be turned into bytes.
    KeyEncodeError(storekey::encode::Error),
    /// The value could not be turned into bytes.
    ValueEncodeError(rmp_serde::encode::Error),
    /// The stored bytes are not a value of the expected type.
    ValueDecodeError(rmp_serde::decode::Error),
}

impl From<storekey::encode::Error> for DatasetError {
    fn from(cause: storekey::encode::Error) -> (e: DatasetError) {
        DatasetError::KeyEncodeError(cause)
    }
}

impl FromSpecImpl<storekey::encode::Error> for DatasetError {
    open spec fn obeys_from_spec() -> bool {
        true
    }

    open spec fn from_spec(cause: storekey::encode::Error) -> DatasetError {
        DatasetError::KeyEncodeError(cause)
    }
}

impl From<rmp_serde::encode::Error> for DatasetError {
    fn from(cause: rmp_serde::encode::Error) -> (e: DatasetError) {
        DatasetError::ValueEncodeError(cause)
    }
}

impl FromSpecImpl<rmp_serde::encode::Error> for DatasetError {
    open spec fn obeys_from_spec() -> bool {
        true
    }

    open spec fn from_spec(cause: rmp_serde::encode::Error) -> DatasetError {
        DatasetError::ValueEncodeError(cause)
    }
}

impl From<rmp_serde::decode::Error> for DatasetError {
    fn from(cause: rmp_serde::decode::Error) -> (e: DatasetError) {
        DatasetError::ValueDecodeError(cause)
    }
}

impl FromSpecImpl<rmp_serde::decode::Error> for DatasetError {
    open spec fn obeys_from_spec() -> bool {
        true
    }

    open spec fn from_spec(cause: rmp_serde::decode::Error) -> DatasetError {
        DatasetError::ValueDecodeError(cause)
    }
}

} // verus!
