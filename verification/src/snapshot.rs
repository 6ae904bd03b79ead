//! The records that one unit of work has read from the persistence
//! service, and how a record is found among them.

use crate::entity::{
    Aircraft, AircraftView, AssetGroup, AssetGroupView, Operator, OperatorView, Vertipad,
    VertipadView, Vertiport, VertiportView,
};
use crate::error::{yields, RegistryError};
use crate::identifier::Identifier;
use vstd::prelude::*;

verus! {

/// The views of the items of a sequence.
pub open spec fn views<T: View>(s: Seq<T>) -> Seq<T::V> {
    Seq::new(s.len(), |i: int| s[i]@)
}

/// A record that is stored under an identifier.
pub trait Record: View + Sized {
    /// The identifier under which a record is stored.
    spec fn key_of(v: Self::V) -> Identifier;

    /// The identifier under which this record is stored.
    fn key(&self) -> (id: Identifier)
        ensures
            id == Self::key_of(self@),
    ;

    /// A copy of this record.
    fn duplicate(&self) -> (r: Self)
        ensures
            r@ == self@,
    ;
}

impl Record for Operator {
    open spec fn key_of(v: OperatorView) -> Identifier {
        v.id
    }

    fn key(&self) -> (id: Identifier) {
        self.id
    }

    fn duplicate(&self) -> (r: Self) {
        self.clone()
    }
}

impl Record for Aircraft {
    open spec fn key_of(v: AircraftView) -> Identifier {
        v.basics.id
    }

    fn key(&self) -> (id: Identifier) {
        self.basics.id
    }

    fn duplicate(&self) -> (r: Self) {
        self.clone()
    }
}

impl Record for Vertiport {
    open spec fn key_of(v: VertiportView) -> Identifier {
        v.basics.id
    }

    fn key(&self) -> (id: Identifier) {
        self.basics.id
    }

    fn duplicate(&self) -> (r: Self) {
        self.clone()
    }
}

impl Record for Vertipad {
    open spec fn key_of(v: VertipadView) -> Identifier {
        v.id
    }

    fn key(&self) -> (id: Identifier) {
        self.id
    }

    fn duplicate(&self) -> (r: Self) {
        self.clone()
    }
}

impl Record for AssetGroup {
    open spec fn key_of(v: AssetGroupView) -> Identifier {
        v.id
    }

    fn key(&self) -> (id: Identifier) {
        self.id
    }

    fn duplicate(&self) -> (r: Self) {
        self.clone()
    }
}

/// Whether `i` is the place of the first record that is stored under `id`.
pub open spec fn is_first<T: Record>(records: Seq<T::V>, id: Identifier, i: int) -> bool {
    &&& 0 <= i < records.len()
    &&& T::key_of(records[i]) == id
    &&& forall|j: int| 0 <= j < i ==> T::key_of(#[trigger] records[j]) != id
}

/// Whether a record is stored under `id`.
pub open spec fn holds<T: Record>(records: Seq<T::V>, id: Identifier) -> bool {
    exists|i: int| 0 <= i < records.len() && T::key_of(#[trigger] records[i]) == id
}

/// The first record that is stored under `id`, or `NotFound`.
pub open spec fn found<T: Record>(records: Seq<T::V>, id: Identifier) -> Result<
    T::V,
    RegistryError,
> {
    if holds::<T>(records, id) {
        Ok(records[choose|i: int| is_first::<T>(records, id, i)])
    } else {
        Err(RegistryError::NotFound)
    }
}

/// The place of the first record that is stored under `id`.
pub fn find<T: Record>(records: &Vec<T>, id: Identifier) -> (r: Option<usize>)
    ensures
        match r {
            Some(i) => is_first::<T>(views(records@), id, i as int),
            None => !holds::<T>(views(records@), id),
        },
{
    let mut i: usize = 0;
    while i < records.len()
        invariant
            i <= records.len(),
            forall|j: int| 0 <= j < i ==> T::key_of(#[trigger] views(records@)[j]) != id,
        decreases records.len() - i,
    {
        if records[i].key() == id {
            return Some(i);
        }
        i = i + 1;
    }
    None
}

/// A copy of the first record that is stored under `id`.
pub fn fetch<T: Record>(records: &Vec<T>, id: Identifier) -> (r: Result<T, RegistryError>)
    ensures
        yields(r, found::<T>(views(records@), id)),
        r matches Ok(record) ==> T::key_of(record@) == id,
{
    match find(records, id) {
        Some(i) => {
            proof {
                let s = views(records@);
                assert(T::key_of(s[i as int]) == id);
                let k = choose|k: int| is_first::<T>(s, id, k);
                assert(is_first::<T>(s, id, i as int));
                assert(is_first::<T>(s, id, k));
                assert(k == i) by {
                    if k < i {
                        assert(T::key_of(s[k]) != id);
                    }
                    if i < k {
                        assert(T::key_of(s[i as int]) != id);
                    }
                }
            }
            Ok(records[i].duplicate())
        },
        None => Err(RegistryError::NotFound),
    }
}

/// What a unit of work has read from the persistence service: the records
/// of each kind, in the order in which the service returned them.
#[derive(Debug, PartialEq, Eq)]
pub struct Snapshot {
    pub operators: Vec<Operator>,
    pub aircraft: Vec<Aircraft>,
    pub vertiports: Vec<Vertiport>,
    pub vertipads: Vec<Vertipad>,
    pub groups: Vec<AssetGroup>,
}

/// The view of a [`Snapshot`].
pub ghost struct SnapshotView {
    pub operators: Seq<OperatorView>,
    pub aircraft: Seq<AircraftView>,
    pub vertiports: Seq<VertiportView>,
    pub vertipads: Seq<VertipadView>,
    pub groups: Seq<AssetGroupView>,
}

impl View for Snapshot {
    type V = SnapshotView;

    open spec fn view(&self) -> SnapshotView {
        SnapshotView {
            operators: views(self.operators@),
            aircraft: views(self.aircraft@),
            vertiports: views(self.vertiports@),
            vertipads: views(self.vertipads@),
            groups: views(self.groups@),
        }
    }
}

impl Snapshot {
    /// A snapshot without records.
    pub fn new() -> (s: Snapshot)
        ensures
            s@.operators.len() == 0,
            s@.aircraft.len() == 0,
            s@.vertiports.len() == 0,
            s@.vertipads.len() == 0,
            s@.groups.len() == 0,
    {
        Snapshot {
            operators: Vec::new(),
            aircraft: Vec::new(),
            vertiports: Vec::new(),
            vertipads: Vec::new(),
            groups: Vec::new(),
        }
    }
}

} // verus!
