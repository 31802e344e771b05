use crate::db::{DBConfig, DB};
use vstd::prelude::*;

pub mod collection;

verus! {

/// Marks a live handle that a [`DatasetConfig`] bound to an opened store.
pub trait Dataset {

}

/// What every kind of dataset brings: before the store is opened it reserves
/// the column families it will live in, and afterwards it binds itself to the
/// opened store.
///
/// The two steps are apart because the engine must be told of every column
/// family in the one call that opens the store. Any number of configurations,
/// of any kinds, reserve into the same [`DBConfig`] without knowing of each
/// other.
pub trait DatasetConfig {
    /// The handle that `open` produces.
    type DatasetType: Dataset;

    /// The names of the column families that this dataset reserves, in order.
    spec fn reservations(&self) -> Seq<Seq<char>>;

    /// Appends this dataset's reservations. What was reserved before stays, in
    /// its order, and the store's own switches are left alone.
    fn update_db_config(&self, db_config: &mut DBConfig)
        ensures
            final(db_config).reserved_after(old(db_config), self.reservations()),
    ;

    /// Binds the dataset to an opened store. This cannot fail and touches no
    /// data: a column family that the store lacks shows at the first use of the
    /// handle.
    fn open(&self, db: &DB) -> (dataset: Self::DatasetType);
}

/// Reservations only accumulate. Once a dataset has reserved into a
/// configuration, every name it reserves is reserved there, every name reserved
/// before still is, and no other name has come in.
pub proof fn reservations_accumulate(
    before: DBConfig,
    after: DBConfig,
    reservations: Seq<Seq<char>>,
)
    requires
        after.reserved_after(&before, reservations),
    ensures
        forall|name: Seq<char>| before.reserves(name) ==> after.reserves(name),
        forall|i: int| 0 <= i < reservations.len() ==> after.reserves(#[trigger] reservations[i]),
        forall|name: Seq<char>|
            after.reserves(name) ==> before.reserves(name) || reservations.contains(name),
{
    assert forall|name: Seq<char>| before.reserves(name) implies after.reserves(name) by {
        let j = choose|j: int| 0 <= j < before.cfs@.len() && (#[trigger] before.cfs@[j]).0@ == name;
        assert(after.cfs@.take(before.cfs@.len() as int)[j] == after.cfs@[j]);
        assert(after.cfs@[j].0@ == name);
    }
    assert forall|i: int| 0 <= i < reservations.len() implies after.reserves(
        #[trigger] reservations[i],
    ) by {
        assert(after.cfs@[before.cfs@.len() + i].0@ == reservations[i]);
    }
    assert forall|name: Seq<char>| after.reserves(name) implies before.reserves(name)
        || reservations.contains(name) by {
        let j = choose|j: int| 0 <= j < after.cfs@.len() && (#[trigger] after.cfs@[j]).0@ == name;
        if j < before.cfs@.len() {
            assert(after.cfs@.take(before.cfs@.len() as int)[j] == after.cfs@[j]);
            assert(before.cfs@[j].0@ == name);
        } else {
            let i = j - before.cfs@.len();
            assert(after.cfs@[before.cfs@.len() + i].0@ == reservations[i]);
            assert(reservations[i] == name);
        }
    }
}

} // verus!
