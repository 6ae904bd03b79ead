//! The writes that a registry operation asks the persistence service to
//! make, and a model of what such a write does to the records.
//!
//! The service offers no transaction over several records. An operation
//! therefore hands out its writes in the order in which they are to be made,
//! one record each, and the first write that fails ends the sequence.

use crate::entity::{
    Aircraft, AircraftView, AssetGroup, AssetGroupView, Vertipad, VertipadView, Vertiport,
    VertiportView,
};
use crate::error::{RegistryError, StoreError};
use crate::identifier::Identifier;
use crate::snapshot::{find, holds, is_first, views, Record, Snapshot, SnapshotView};
use vstd::prelude::*;

verus! {

/// One write of one record.
#[derive(Debug, PartialEq, Eq)]
pub enum StoreWrite {
    InsertAircraft(Aircraft),
    UpdateAircraft(Aircraft),
    DeleteAircraft(Identifier),
    InsertVertiport(Vertiport),
    UpdateVertiport(Vertiport),
    DeleteVertiport(Identifier),
    InsertVertipad(Vertipad),
    UpdateVertipad(Vertipad),
    DeleteVertipad(Identifier),
    InsertAssetGroup(AssetGroup),
    UpdateAssetGroup(AssetGroup),
    DeleteAssetGroup(Identifier),
}

/// The view of a [`StoreWrite`].
pub ghost enum StoreWriteView {
    InsertAircraft(AircraftView),
    UpdateAircraft(AircraftView),
    DeleteAircraft(Identifier),
    InsertVertiport(VertiportView),
    UpdateVertiport(VertiportView),
    DeleteVertiport(Identifier),
    InsertVertipad(VertipadView),
    UpdateVertipad(VertipadView),
    DeleteVertipad(Identifier),
    InsertAssetGroup(AssetGroupView),
    UpdateAssetGroup(AssetGroupView),
    DeleteAssetGroup(Identifier),
}

impl View for StoreWrite {
    type V = StoreWriteView;

    open spec fn view(&self) -> StoreWriteView {
        match self {
            StoreWrite::InsertAircraft(r) => StoreWriteView::InsertAircraft(r@),
            StoreWrite::UpdateAircraft(r) => StoreWriteView::UpdateAircraft(r@),
            StoreWrite::DeleteAircraft(id) => StoreWriteView::DeleteAircraft(*id),
            StoreWrite::InsertVertiport(r) => StoreWriteView::InsertVertiport(r@),
            StoreWrite::UpdateVertiport(r) => StoreWriteView::UpdateVertiport(r@),
            StoreWrite::DeleteVertiport(id) => StoreWriteView::DeleteVertiport(*id),
            StoreWrite::InsertVertipad(r) => StoreWriteView::InsertVertipad(r@),
            StoreWrite::UpdateVertipad(r) => StoreWriteView::UpdateVertipad(r@),
            StoreWrite::DeleteVertipad(id) => StoreWriteView::DeleteVertipad(*id),
            StoreWrite::InsertAssetGroup(r) => StoreWriteView::InsertAssetGroup(r@),
            StoreWrite::UpdateAssetGroup(r) => StoreWriteView::UpdateAssetGroup(r@),
            StoreWrite::DeleteAssetGroup(id) => StoreWriteView::DeleteAssetGroup(*id),
        }
    }
}

/// Whether an operation hands out the expected writes, or fails as expected.
pub open spec fn plans(
    r: Result<Vec<StoreWrite>, RegistryError>,
    expected: Result<Seq<StoreWriteView>, RegistryError>,
) -> bool {
    match expected {
        Ok(ws) => r matches Ok(v) && views(v@) == ws,
        Err(e) => r matches Err(f) && f == e,
    }
}

/// Whether no two records of a list are stored under the same identifier.
pub open spec fn unique_keys<T: Record>(records: Seq<T::V>) -> bool {
    forall|i: int, j: int|
        0 <= i < j < records.len() ==> T::key_of(#[trigger] records[i]) != T::key_of(
            #[trigger] records[j],
        )
}

/// The place of the first record that is stored under `id`.
pub open spec fn place<T: Record>(records: Seq<T::V>, id: Identifier) -> int {
    choose|i: int| is_first::<T>(records, id, i)
}

/// The records after an insert: a `Conflict` where a record is stored under
/// the same identifier already, else the new record comes last.
pub open spec fn inserted<T: Record>(records: Seq<T::V>, r: T::V) -> Result<Seq<T::V>, StoreError> {
    if holds::<T>(records, T::key_of(r)) {
        Err(StoreError::Conflict)
    } else {
        Ok(records.push(r))
    }
}

/// The records after an update: `NotFound` where no record is stored under
/// the identifier of `r`, else `r` stands in the place of that record.
pub open spec fn replaced<T: Record>(records: Seq<T::V>, r: T::V) -> Result<Seq<T::V>, StoreError> {
    if holds::<T>(records, T::key_of(r)) {
        Ok(records.update(place::<T>(records, T::key_of(r)), r))
    } else {
        Err(StoreError::NotFound)
    }
}

/// The records after a delete: `NotFound` where no record is stored under
/// `id`, else that record is gone and the others keep their order.
pub open spec fn deleted<T: Record>(records: Seq<T::V>, id: Identifier) -> Result<
    Seq<T::V>,
    StoreError,
> {
    if holds::<T>(records, id) {
        Ok(records.remove(place::<T>(records, id)))
    } else {
        Err(StoreError::NotFound)
    }
}

/// The records of a snapshot after one write.
pub open spec fn written(s: SnapshotView, w: StoreWriteView) -> Result<SnapshotView, StoreError> {
    match w {
        StoreWriteView::InsertAircraft(r) => match inserted::<Aircraft>(s.aircraft, r) {
            Ok(after) => Ok(SnapshotView { aircraft: after, ..s }),
            Err(e) => Err(e),
        },
        StoreWriteView::UpdateAircraft(r) => match replaced::<Aircraft>(s.aircraft, r) {
            Ok(after) => Ok(SnapshotView { aircraft: after, ..s }),
            Err(e) => Err(e),
        },
        StoreWriteView::DeleteAircraft(id) => match deleted::<Aircraft>(s.aircraft, id) {
            Ok(after) => Ok(SnapshotView { aircraft: after, ..s }),
            Err(e) => Err(e),
        },
        StoreWriteView::InsertVertiport(r) => match inserted::<Vertiport>(s.vertiports, r) {
            Ok(after) => Ok(SnapshotView { vertiports: after, ..s }),
            Err(e) => Err(e),
        },
        StoreWriteView::UpdateVertiport(r) => match replaced::<Vertiport>(s.vertiports, r) {
            Ok(after) => Ok(SnapshotView { vertiports: after, ..s }),
            Err(e) => Err(e),
        },
        StoreWriteView::DeleteVertiport(id) => match deleted::<Vertiport>(s.vertiports, id) {
            Ok(after) => Ok(SnapshotView { vertiports: after, ..s }),
            Err(e) => Err(e),
        },
        StoreWriteView::InsertVertipad(r) => match inserted::<Vertipad>(s.vertipads, r) {
            Ok(after) => Ok(SnapshotView { vertipads: after, ..s }),
            Err(e) => Err(e),
        },
        StoreWriteView::UpdateVertipad(r) => match replaced::<Vertipad>(s.vertipads, r) {
            Ok(after) => Ok(SnapshotView { vertipads: after, ..s }),
            Err(e) => Err(e),
        },
        StoreWriteView::DeleteVertipad(id) => match deleted::<Vertipad>(s.vertipads, id) {
            Ok(after) => Ok(SnapshotView { vertipads: after, ..s }),
            Err(e) => Err(e),
        },
        StoreWriteView::InsertAssetGroup(r) => match inserted::<AssetGroup>(s.groups, r) {
            Ok(after) => Ok(SnapshotView { groups: after, ..s }),
            Err(e) => Err(e),
        },
        StoreWriteView::UpdateAssetGroup(r) => match replaced::<AssetGroup>(s.groups, r) {
            Ok(after) => Ok(SnapshotView { groups: after, ..s }),
            Err(e) => Err(e),
        },
        StoreWriteView::DeleteAssetGroup(id) => match deleted::<AssetGroup>(s.groups, id) {
            Ok(after) => Ok(SnapshotView { groups: after, ..s }),
            Err(e) => Err(e),
        },
    }
}

/// The records of a snapshot after a sequence of writes, made in order. The
/// first write that fails ends the sequence with its error.
pub open spec fn written_all(s: SnapshotView, ws: Seq<StoreWriteView>) -> Result<
    SnapshotView,
    StoreError,
>
    decreases ws.len(),
{
    if ws.len() == 0 {
        Ok(s)
    } else {
        match written_all(s, ws.drop_last()) {
            Ok(before) => written(before, ws.last()),
            Err(e) => Err(e),
        }
    }
}

/// The records of a snapshot after those writes of a sequence that were
/// made: all of them, or the ones before the first that fails.
pub open spec fn written_so_far(s: SnapshotView, ws: Seq<StoreWriteView>) -> SnapshotView
    decreases ws.len(),
{
    if ws.len() == 0 {
        s
    } else {
        let before = written_so_far(s, ws.drop_last());
        match written_all(s, ws) {
            Ok(after) => after,
            Err(_) => before,
        }
    }
}

/// Where two places are each the first under an identifier, they are the same.
pub proof fn lemma_first_is_unique<T: Record>(records: Seq<T::V>, id: Identifier, i: int, j: int)
    requires
        is_first::<T>(records, id, i),
        is_first::<T>(records, id, j),
    ensures
        i == j,
{
    if i < j {
        assert(T::key_of(records[i]) != id);
    }
    if j < i {
        assert(T::key_of(records[j]) != id);
    }
}

/// Whether a list of records is what a write was to make of another: on
/// success the expected list, on failure the list as it was.
pub open spec fn settled<T: Record>(
    before: Seq<T::V>,
    after: Seq<T::V>,
    out: Result<(), StoreError>,
    expected: Result<Seq<T::V>, StoreError>,
) -> bool {
    match expected {
        Ok(records) => out is Ok && after == records,
        Err(e) => out == Err::<(), StoreError>(e) && after == before,
    }
}

/// Stores a new record.
pub fn insert_record<T: Record>(records: &mut Vec<T>, r: T) -> (out: Result<(), StoreError>)
    ensures
        settled::<T>(
            views(old(records)@),
            views(final(records)@),
            out,
            inserted::<T>(views(old(records)@), r@),
        ),
{
    match find(records, r.key()) {
        Some(_) => Err(StoreError::Conflict),
        None => {
            records.push(r);
            assert(views(records@) =~= views(old(records)@).push(r@));
            Ok(())
        },
    }
}

/// Puts a record in the place of the one that is stored under its identifier.
pub fn replace_record<T: Record>(records: &mut Vec<T>, r: T) -> (out: Result<(), StoreError>)
    ensures
        settled::<T>(
            views(old(records)@),
            views(final(records)@),
            out,
            replaced::<T>(views(old(records)@), r@),
        ),
{
    match find(records, r.key()) {
        Some(i) => {
            proof {
                let s = views(records@);
                let id = T::key_of(r@);
                assert(T::key_of(s[i as int]) == id);
                lemma_first_is_unique::<T>(s, id, i as int, place::<T>(s, id));
            }
            records.set(i, r);
            assert(views(records@) =~= views(old(records)@).update(i as int, r@));
            Ok(())
        },
        None => Err(StoreError::NotFound),
    }
}

/// Takes out the record that is stored under an identifier.
pub fn delete_record<T: Record>(records: &mut Vec<T>, id: Identifier) -> (out: Result<
    (),
    StoreError,
>)
    ensures
        settled::<T>(
            views(old(records)@),
            views(final(records)@),
            out,
            deleted::<T>(views(old(records)@), id),
        ),
{
    match find(records, id) {
        Some(i) => {
            proof {
                let s = views(records@);
                assert(T::key_of(s[i as int]) == id);
                lemma_first_is_unique::<T>(s, id, i as int, place::<T>(s, id));
            }
            let _ = records.remove(i);
            assert(views(records@) =~= views(old(records)@).remove(i as int));
            Ok(())
        },
        None => Err(StoreError::NotFound),
    }
}

impl Snapshot {
    /// Makes one write on the records of the snapshot, as the persistence
    /// service would on its own. A write that fails changes nothing.
    pub fn apply(&mut self, write: &StoreWrite) -> (out: Result<(), StoreError>)
        ensures
            match written(old(self)@, write@) {
                Ok(after) => out is Ok && final(self)@ == after,
                Err(e) => out == Err::<(), StoreError>(e) && final(self)@ == old(self)@,
            },
    {
        match write {
            StoreWrite::InsertAircraft(r) => insert_record(&mut self.aircraft, r.duplicate()),
            StoreWrite::UpdateAircraft(r) => replace_record(&mut self.aircraft, r.duplicate()),
            StoreWrite::DeleteAircraft(id) => delete_record(&mut self.aircraft, *id),
            StoreWrite::InsertVertiport(r) => insert_record(&mut self.vertiports, r.duplicate()),
            StoreWrite::UpdateVertiport(r) => replace_record(&mut self.vertiports, r.duplicate()),
            StoreWrite::DeleteVertiport(id) => delete_record(&mut self.vertiports, *id),
            StoreWrite::InsertVertipad(r) => insert_record(&mut self.vertipads, r.duplicate()),
            StoreWrite::UpdateVertipad(r) => replace_record(&mut self.vertipads, r.duplicate()),
            StoreWrite::DeleteVertipad(id) => delete_record(&mut self.vertipads, *id),
            StoreWrite::InsertAssetGroup(r) => insert_record(&mut self.groups, r.duplicate()),
            StoreWrite::UpdateAssetGroup(r) => replace_record(&mut self.groups, r.duplicate()),
            StoreWrite::DeleteAssetGroup(id) => delete_record(&mut self.groups, *id),
        }
    }

    /// Makes a sequence of writes in order and stops at the first that
    /// fails; the writes before it stay made.
    pub fn apply_all(&mut self, writes: &Vec<StoreWrite>) -> (out: Result<(), StoreError>)
        ensures
            match written_all(old(self)@, views(writes@)) {
                Ok(after) => out is Ok && final(self)@ == after,
                Err(e) => out == Err::<(), StoreError>(e),
            },
            final(self)@ == written_so_far(old(self)@, views(writes@)),
    {
        let ghost all = views(writes@);
        let mut i: usize = 0;
        while i < writes.len()
            invariant
                i <= writes.len(),
                all == views(writes@),
                written_all(old(self)@, all.take(i as int)) == Ok::<SnapshotView, StoreError>(
                    self@,
                ),
                self@ == written_so_far(old(self)@, all.take(i as int)),
            decreases writes.len() - i,
        {
            proof {
                assert(all.take(i + 1).drop_last() =~= all.take(i as int));
                assert(all.take(i + 1).last() == writes@[i as int]@);
            }
            match self.apply(&writes[i]) {
                Ok(()) => {},
                Err(e) => {
                    proof {
                        lemma_failure_stays(old(self)@, all, i + 1);
                    }
                    return Err(e);
                },
            }
            i = i + 1;
        }
        assert(all.take(all.len() as int) =~= all);
        Ok(())
    }
}

/// Once a write of a sequence has failed, the sequence has failed with it,
/// however long it goes on, and no later write is made.
pub proof fn lemma_failure_stays(s: SnapshotView, ws: Seq<StoreWriteView>, n: int)
    requires
        0 <= n <= ws.len(),
        written_all(s, ws.take(n)) is Err,
    ensures
        written_all(s, ws) == written_all(s, ws.take(n)),
        written_so_far(s, ws) == written_so_far(s, ws.take(n)),
    decreases ws.len() - n,
{
    if n < ws.len() {
        assert(ws.take(n + 1).drop_last() =~= ws.take(n));
        lemma_failure_stays(s, ws, n + 1);
    } else {
        assert(ws.take(n) =~= ws);
    }
}

} // verus!
