use crate::error::DatasetError;
use vstd::prelude::*;

verus! {

/// The switches that decide what opening a store may create.
///
/// Both are off until the caller turns them on: opening a store that must
/// already exist, and failing loudly when it does not, is a use of its own.
#[derive(Clone, Copy, Debug, PartialEq, Eq, Structural)]
pub struct Options {
    /// Create the store when nothing exists at the path.
    pub create_if_missing: bool,
    /// Create the reserved column families that the store does not hold yet.
    pub create_missing_column_families: bool,
}

impl Options {
    /// Says whether opening may create the store itself.
    pub fn create_if_missing(&mut self, create_if_missing: bool)
        ensures
            final(self).create_if_missing == create_if_missing,
            final(self).create_missing_column_families == old(
                self,
            ).create_missing_column_families,
    {
        self.create_if_missing = create_if_missing;
    }

    /// Says whether opening may create column families that are missing.
    pub fn create_missing_column_families(&mut self, create_missing_cfs: bool)
        ensures
            final(self).create_missing_column_families == create_missing_cfs,
            final(self).create_if_missing == old(self).create_if_missing,
    {
        self.create_missing_column_families = create_missing_cfs;
    }
}

impl Default for Options {
    fn default() -> (opts: Options)
        ensures
            !opts.create_if_missing,
            !opts.create_missing_column_families,
    {
        Options { create_if_missing: false, create_missing_column_families: false }
    }
}

/// What a store is opened with: the switches of the store itself and, in the
/// order in which they were reserved, the column families with theirs.
///
/// Names are not compared here. Two reservations of one name are the caller's
/// mistake, and the engine reports it when the store is opened.
#[derive(Debug)]
pub struct DBConfig {
    pub opts: Options,
    pub cfs: Vec<(String, Options)>,
}

/// An opened store, as far as this layer looks into it: the names of the column
/// families it was opened with.
#[derive(Debug)]
pub struct DB {
    column_families: Vec<String>,
}

/// Whether `name` is one of `names`.
spec fn has_name(names: Seq<String>, name: Seq<char>) -> bool {
    exists|i: int| 0 <= i < names.len() && (#[trigger] names[i])@ == name
}

impl View for DB {
    type V = Set<Seq<char>>;

    /// The names of the column families that the store serves.
    closed spec fn view(&self) -> Set<Seq<char>> {
        Set::new(|name: Seq<char>| has_name(self.column_families@, name))
    }
}

impl Clone for DB {
    /// Another handle on the same store.
    fn clone(&self) -> (db: DB)
        ensures
            db@ == self@,
    {
        let mut column_families: Vec<String> = Vec::new();
        let mut i: usize = 0;
        while i < self.column_families.len()
            invariant
                i <= self.column_families@.len(),
                column_families@ == self.column_families@.take(i as int),
            decreases self.column_families@.len() - i,
        {
            column_families.push(self.column_families[i].clone());
            assert(self.column_families@.take(i as int).push(self.column_families@[i as int])
                == self.column_families@.take(i + 1));
            i += 1;
        }
        assert(column_families@ == self.column_families@);
        DB { column_families }
    }
}

impl DB {
    /// Whether the store was opened with a column family of this name.
    pub fn has_column_family(&self, name: &String) -> (found: bool)
        ensures
            found == self@.contains(name@),
    {
        let mut i: usize = 0;
        while i < self.column_families.len()
            invariant
                i <= self.column_families@.len(),
                !has_name(self.column_families@.take(i as int), name@),
            decreases self.column_families@.len() - i,
        {
            if self.column_families[i] == *name {
                return true;
            }
            assert forall|j: int| 0 <= j < i + 1 implies (#[trigger] self.column_families@.take(
                i + 1,
            )[j])@ != name@ by {
                if j < i {
                    assert(self.column_families@.take(i as int)[j]@ != name@);
                }
            }
            i += 1;
        }
        assert(self.column_families@.take(i as int) == self.column_families@);
        false
    }
}

impl DBConfig {
    /// Whether a column family of this name has been reserved.
    pub open spec fn reserves(&self, name: Seq<char>) -> bool {
        exists|i: int| 0 <= i < self.cfs@.len() && (#[trigger] self.cfs@[i]).0@ == name
    }

    /// The names that have been reserved.
    pub open spec fn reserved(&self) -> Set<Seq<char>> {
        Set::new(|name: Seq<char>| self.reserves(name))
    }

    /// Whether this configuration is `before` with column families of these
    /// `names` reserved behind what `before` had reserved, in this order, and
    /// with nothing else changed.
    pub open spec fn reserved_after(&self, before: &DBConfig, names: Seq<Seq<char>>) -> bool {
        &&& self.opts == before.opts
        &&& self.cfs@.len() == before.cfs@.len() + names.len()
        &&& self.cfs@.take(before.cfs@.len() as int) == before.cfs@
        &&& forall|i: int|
            0 <= i < names.len() ==> (#[trigger] self.cfs@[before.cfs@.len() + i]).0@ == names[i]
    }

    /// Turns the engine's answer to the open call into the handle, or into the error.
    ///
    /// The call itself is the caller's: it hands the engine `opts` and every
    /// reservation in `cfs` at once, and brings back what the engine said: `Ok`,
    /// or the engine's message. On `Ok` the handle serves exactly the column
    /// families that were reserved. The configuration is only read, so it can open
    /// further stores of the same shape.
    pub fn open(&self, engine: Result<(), String>) -> (opened: Result<DB, DatasetError>)
        ensures
            match engine {
                Ok(_) => opened is Ok && opened->Ok_0@ == self.reserved(),
                Err(message) => opened is Err && opened->Err_0 == DatasetError::RocksdbError(
                    message,
                ),
            },
    {
        match engine {
            Err(message) => Err(DatasetError::RocksdbError(message)),
            Ok(_) => {
                let mut column_families: Vec<String> = Vec::new();
                let mut i: usize = 0;
                while i < self.cfs.len()
                    invariant
                        i <= self.cfs@.len(),
                        column_families@.len() == i,
                        forall|j: int|
                            0 <= j < i ==> (#[trigger] column_families@[j])@ == self.cfs@[j].0@,
                    decreases self.cfs@.len() - i,
                {
                    column_families.push(self.cfs[i].0.clone());
                    i += 1;
                }
                let db = DB { column_families };
                assert(db@ =~= self.reserved()) by {
                    assert forall|name: Seq<char>| db@.contains(name) implies self.reserves(
                        name,
                    ) by {
                        let j = choose|j: int|
                            0 <= j < db.column_families@.len() && (
                            #[trigger] db.column_families@[j])@ == name;
                        assert(self.cfs@[j].0@ == name);
                    }
                    assert forall|name: Seq<char>| self.reserves(name) implies db@.contains(
                        name,
                    ) by {
                        let j = choose|j: int|
                            0 <= j < self.cfs@.len() && (#[trigger] self.cfs@[j]).0@ == name;
                        assert(db.column_families@[j]@ == name);
                    }
                }
                Ok(db)
            },
        }
    }
}

impl Default for DBConfig {
    /// Nothing reserved, every switch off.
    fn default() -> (config: DBConfig)
        ensures
            config.opts == (Options {
                create_if_missing: false,
                create_missing_column_families: false,
            }),
            config.cfs@.len() == 0,
    {
        DBConfig { opts: Options::default(), cfs: Vec::new() }
    }
}

} // verus!
