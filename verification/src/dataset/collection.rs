use crate::codec::{decode_value, encode_key, encode_value};
use crate::dataset::{Dataset, DatasetConfig};
use crate::db::{DBConfig, Options, DB};
use crate::error::DatasetError;
use crate::request::Request;
use serde::de::DeserializeOwned;
use serde::Serialize;
use std::marker::PhantomData;
use vstd::prelude::*;

verus! {

/// A typed view of one column family of an opened store.
///
/// The handle holds a share of the store and the column family's name, and no
/// data: every handle on the same column family sees the same entries.
pub struct Collection<KeyType, ValueType> {
    db: DB,
    cf_name: String,
    _phantom: PhantomData<(KeyType, ValueType)>,
}

impl<KeyType, ValueType> Dataset for Collection<KeyType, ValueType> {

}

impl<KeyType, ValueType> Clone for Collection<KeyType, ValueType> {
    /// Another handle on the same column family of the same store.
    fn clone(&self) -> (handle: Self)
        ensures
            handle.cf_name() == self.cf_name(),
            handle.column_families() == self.column_families(),
    {
        Collection { db: self.db.clone(), cf_name: self.cf_name.clone(), _phantom: PhantomData }
    }
}

impl<KeyType, ValueType> Collection<KeyType, ValueType> {
    /// The name of the column family that the handle reads and writes.
    pub closed spec fn cf_name(&self) -> Seq<char> {
        self.cf_name@
    }

    /// The column families of the store that the handle is bound to.
    pub closed spec fn column_families(&self) -> Set<Seq<char>> {
        self.db@
    }

    /// Whether the store that the handle is bound to has its column family.
    pub open spec fn is_served(&self) -> bool {
        self.column_families().contains(self.cf_name())
    }

    /// Plans the lookup of `key`.
    pub fn get(&self, key: &KeyType) -> (planned: Result<Request, DatasetError>) where
        KeyType: Serialize,

        ensures
            !self.is_served() ==> planned is Err && planned->Err_0 is CFNotFound
                && planned->Err_0->CFNotFound_0@ == self.cf_name(),
            self.is_served() ==> match planned {
                Ok(request) => request@ is Get && request@->Get_cf_name == self.cf_name(),
                Err(e) => e is KeyEncodeError,
            },
    {
        if !self.db.has_column_family(&self.cf_name) {
            return Err(DatasetError::CFNotFound(self.cf_name.clone()));
        }
        Request::get(self.cf_name.clone(), encode_key(key))
    }

    /// Plans the write of `value` under `key`. Whether the key is taken or free
    /// plays no part: the last write wins.
    pub fn put(&self, key: &KeyType, value: &ValueType) -> (planned: Result<
        Request,
        DatasetError,
    >) where KeyType: Serialize, ValueType: Serialize
        ensures
            !self.is_served() ==> planned is Err && planned->Err_0 is CFNotFound
                && planned->Err_0->CFNotFound_0@ == self.cf_name(),
            self.is_served() ==> match planned {
                Ok(request) => request@ is Put && request@->Put_cf_name == self.cf_name(),
                Err(e) => e is KeyEncodeError || e is ValueEncodeError,
            },
    {
        if !self.db.has_column_family(&self.cf_name) {
            return Err(DatasetError::CFNotFound(self.cf_name.clone()));
        }
        match encode_key(key) {
            Ok(key) => Request::put(self.cf_name.clone(), key, encode_value(value)),
            Err(cause) => Err(DatasetError::from(cause)),
        }
    }

    /// Plans the removal of `key`. Whether the key is there plays no part.
    pub fn delete(&self, key: &KeyType) -> (planned: Result<Request, DatasetError>) where
        KeyType: Serialize,

        ensures
            !self.is_served() ==> planned is Err && planned->Err_0 is CFNotFound
                && planned->Err_0->CFNotFound_0@ == self.cf_name(),
            self.is_served() ==> match planned {
                Ok(request) => request@ is Delete && request@->Delete_cf_name == self.cf_name(),
                Err(e) => e is KeyEncodeError,
            },
    {
        if !self.db.has_column_family(&self.cf_name) {
            return Err(DatasetError::CFNotFound(self.cf_name.clone()));
        }
        Request::delete(self.cf_name.clone(), encode_key(key))
    }

    /// What a lookup returns, given what the engine answered to the request
    /// that [`Collection::get`] planned: the decoded value where the engine
    /// found bytes, `None` where it found nothing, and the engine's failure
    /// where it failed.
    pub fn get_reply(&self, reply: Result<Option<Vec<u8>>, String>) -> (value: Result<
        Option<ValueType>,
        DatasetError,
    >) where ValueType: DeserializeOwned
        ensures
            match reply {
                Ok(Some(_)) => match value {
                    Ok(found) => found is Some,
                    Err(e) => e is ValueDecodeError,
                },
                Ok(None) => value is Ok && value->Ok_0 is None,
                Err(message) => value is Err && value->Err_0 == DatasetError::RocksdbError(
                    message,
                ),
            },
    {
        match reply {
            Ok(Some(bytes)) => found(decode_value(&bytes)),
            Ok(None) => Ok(None),
            Err(message) => Err(DatasetError::RocksdbError(message)),
        }
    }

    /// What a write returns, given what the engine answered to the request
    /// that [`Collection::put`] planned.
    pub fn put_reply(&self, reply: Result<(), String>) -> (done: Result<(), DatasetError>)
        ensures
            match reply {
                Ok(_) => done is Ok,
                Err(message) => done is Err && done->Err_0 == DatasetError::RocksdbError(message),
            },
    {
        match reply {
            Ok(_) => Ok(()),
            Err(message) => Err(DatasetError::RocksdbError(message)),
        }
    }

    /// What a removal returns, given what the engine answered to the request
    /// that [`Collection::delete`] planned. The engine answers `Ok` whether or
    /// not the key was there, and so does this.
    pub fn delete_reply(&self, reply: Result<(), String>) -> (done: Result<(), DatasetError>)
        ensures
            match reply {
                Ok(_) => done is Ok,
                Err(message) => done is Err && done->Err_0 == DatasetError::RocksdbError(message),
            },
    {
        match reply {
            Ok(_) => Ok(()),
            Err(message) => Err(DatasetError::RocksdbError(message)),
        }
    }
}

/// What a lookup that found bytes returns, given what decoding them came to.
pub fn found<ValueType>(decoded: Result<ValueType, rmp_serde::decode::Error>) -> (value: Result<
    Option<ValueType>,
    DatasetError,
>)
    ensures
        match decoded {
            Ok(v) => value == Ok::<Option<ValueType>, DatasetError>(Some(v)),
            Err(cause) => value is Err && value->Err_0 == DatasetError::ValueDecodeError(cause),
        },
{
    match decoded {
        Ok(v) => Ok(Some(v)),
        Err(cause) => Err(DatasetError::from(cause)),
    }
}

/// The description of a collection: the name of its column family and that
/// column family's switches. It holds no open handle, so one description can
/// reserve into any number of configurations and bind to any number of stores.
pub struct CollectionConfig<KeyType, ValueType> {
    pub name: String,
    pub cf_options: Options,
    pub _phantom: PhantomData<(KeyType, ValueType)>,
}

impl<KeyType, ValueType> Clone for CollectionConfig<KeyType, ValueType> {
    /// The same description once more.
    fn clone(&self) -> (config: Self)
        ensures
            config.name@ == self.name@,
            config.cf_options == self.cf_options,
    {
        CollectionConfig {
            name: self.name.clone(),
            cf_options: self.cf_options,
            _phantom: PhantomData,
        }
    }
}

impl<KeyType, ValueType> DatasetConfig for CollectionConfig<KeyType, ValueType> {
    type DatasetType = Collection<KeyType, ValueType>;

    /// A collection lives in the one column family that bears its name.
    open spec fn reservations(&self) -> Seq<Seq<char>> {
        seq![self.name@]
    }

    fn update_db_config(&self, db_config: &mut DBConfig)
        ensures
            final(db_config).cfs@ == old(db_config).cfs@.push((self.name, self.cf_options)),
    {
        db_config.cfs.push((self.name.clone(), self.cf_options.clone()));
        proof {
            let reserved = old(db_config).cfs@.len() as int;
            assert(db_config.cfs@.take(reserved) == old(db_config).cfs@);
            assert(db_config.cfs@[reserved + 0].0@ == self.reservations()[0]);
        }
    }

    fn open(&self, db: &DB) -> (dataset: Collection<KeyType, ValueType>)
        ensures
            dataset.cf_name() == self.name@,
            dataset.column_families() == db@,
    {
        Collection { db: db.clone(), cf_name: self.name.clone(), _phantom: PhantomData }
    }
}

impl<KeyType, ValueType> CollectionConfig<KeyType, ValueType> {
    /// The collection of this name, with every switch of its column family off.
    pub fn new(name: &str) -> (config: Self)
        ensures
            config.name@ == name@,
            !config.cf_options.create_if_missing,
            !config.cf_options.create_missing_column_families,
    {
        CollectionConfig {
            name: name.to_owned(),
            cf_options: Options::default(),
            _phantom: PhantomData,
        }
    }
}

/// A collection that reserved its column family before the store was opened is
/// served by the store, whatever was reserved before it or after it: no
/// operation on its handle fails for want of the column family.
pub proof fn reserved_collection_is_served<KeyType, ValueType>(
    config: CollectionConfig<KeyType, ValueType>,
    before: DBConfig,
    after: DBConfig,
    opened: DBConfig,
    db: DB,
    collection: Collection<KeyType, ValueType>,
)
    requires
        after.reserved_after(&before, config.reservations()),
        forall|name: Seq<char>| after.reserves(name) ==> opened.reserves(name),
        db@ == opened.reserved(),
        collection.cf_name() == config.name@,
        collection.column_families() == db@,
    ensures
        collection.is_served(),
{
    assert(config.reservations()[0] == config.name@);
    assert(after.cfs@[before.cfs@.len() + 0int].0@ == config.name@);
    assert(after.reserves(config.name@));
}

/// A handle on a collection whose column family was not reserved when the store
/// was opened is not served by the store. Binding it succeeded all the same:
/// the lack shows when the handle is first used, as
/// [`DatasetError::CFNotFound`] from `get`, `put` and `delete` alike.
pub proof fn unreserved_collection_is_refused<KeyType, ValueType>(
    opened: DBConfig,
    db: DB,
    collection: Collection<KeyType, ValueType>,
)
    requires
        !opened.reserves(collection.cf_name()),
        db@ == opened.reserved(),
        collection.column_families() == db@,
    ensures
        !collection.is_served(),
{
}

} // verus!
