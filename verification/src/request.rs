use crate::error::DatasetError;
use vstd::prelude::*;

verus! {

/// One operation on one entry of a column family, ready for the engine: every
/// name is resolved and every typed value is bytes.
#[derive(Debug, PartialEq, Eq)]
pub enum Request {
    /// Look the key up.
    Get { cf_name: String, key: Vec<u8> },
    /// Write the value under the key, whatever was there.
    Put { cf_name: String, key: Vec<u8>, value: Vec<u8> },
    /// Remove the entry under the key, if there is one.
    Delete { cf_name: String, key: Vec<u8> },
}

/// A request as plain values.
pub enum RequestView {
    Get { cf_name: Seq<char>, key: Seq<u8> },
    Put { cf_name: Seq<char>, key: Seq<u8>, value: Seq<u8> },
    Delete { cf_name: Seq<char>, key: Seq<u8> },
}

impl View for Request {
    type V = RequestView;

    open spec fn view(&self) -> RequestView {
        match *self {
            Request::Get { cf_name, key } => RequestView::Get { cf_name: cf_name@, key: key@ },
            Request::Put { cf_name, key, value } => RequestView::Put {
                cf_name: cf_name@,
                key: key@,
                value: value@,
            },
            Request::Delete { cf_name, key } => RequestView::Delete {
                cf_name: cf_name@,
                key: key@,
            },
        }
    }
}

impl Request {
    /// The lookup of a key in `cf_name`, given what encoding the key came to.
    pub fn get(cf_name: String, key: Result<Vec<u8>, storekey::encode::Error>) -> (planned: Result<
        Request,
        DatasetError,
    >)
        ensures
            match key {
                Ok(key) => planned is Ok && planned->Ok_0@ == (RequestView::Get {
                    cf_name: cf_name@,
                    key: key@,
                }),
                Err(cause) => planned is Err && planned->Err_0 == DatasetError::KeyEncodeError(
                    cause,
                ),
            },
    {
        match key {
            Ok(key) => Ok(Request::Get { cf_name, key }),
            Err(cause) => Err(DatasetError::KeyEncodeError(cause)),
        }
    }

    /// The write under an encoded key in `cf_name`, given what encoding the
    /// value came to.
    pub fn put(cf_name: String, key: Vec<u8>, value: Result<Vec<u8>, rmp_serde::encode::Error>) -> (planned:
        Result<Request, DatasetError>)
        ensures
            match value {
                Ok(value) => planned is Ok && planned->Ok_0@ == (RequestView::Put {
                    cf_name: cf_name@,
                    key: key@,
                    value: value@,
                }),
                Err(cause) => planned is Err && planned->Err_0
                    == DatasetError::ValueEncodeError(cause),
            },
    {
        match value {
            Ok(value) => Ok(Request::Put { cf_name, key, value }),
            Err(cause) => Err(DatasetError::ValueEncodeError(cause)),
        }
    }

    /// The removal of a key from `cf_name`, given what encoding the key came to.
    pub fn delete(cf_name: String, key: Result<Vec<u8>, storekey::encode::Error>) -> (planned:
        Result<Request, DatasetError>)
        ensures
            match key {
                Ok(key) => planned is Ok && planned->Ok_0@ == (RequestView::Delete {
                    cf_name: cf_name@,
                    key: key@,
                }),
                Err(cause) => planned is Err && planned->Err_0 == DatasetError::KeyEncodeError(
                    cause,
                ),
            },
    {
        match key {
            Ok(key) => Ok(Request::Delete { cf_name, key }),
            Err(cause) => Err(DatasetError::KeyEncodeError(cause)),
        }
    }
}

} // verus!
