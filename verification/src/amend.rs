//! Updating entities: a checked update is applied to the record that the
//! snapshot holds, and the new record is handed out to be written.

use crate::entity::{Aircraft, AssetGroup, Timestamp, Vertipad, Vertiport, VertiportView};
use crate::error::RegistryError;
use crate::group::{remove_member, without_member};
use crate::identifier::Identifier;
use crate::registration::hosting;
use crate::snapshot::{fetch, found, views, Snapshot, SnapshotView};
use crate::store::{plans, StoreWrite, StoreWriteView};
use crate::types::{
    UpdateAircraftPayload, UpdateAssetGroupPayload, UpdateVertipadPayload, UpdateVertiportPayload,
};
use crate::update::{
    check_aircraft_update, check_group_update, check_vertipad_update, check_vertiport_update,
    checked_aircraft_update, checked_group_update, checked_vertipad_update,
    checked_vertiport_update, updated_aircraft, updated_group, updated_vertipad,
    updated_vertiport, AircraftUpdate, AircraftUpdateView, AssetGroupUpdate, AssetGroupUpdateView,
    VertipadUpdate, VertipadUpdateView, VertiportUpdate, VertiportUpdateView,
};
use vstd::prelude::*;

verus! {

/// The writes that update an aircraft: one update of its record, or
/// `NotFound` where the snapshot holds no such aircraft.
pub open spec fn aircraft_update_plan(s: SnapshotView, u: AircraftUpdateView, now: Timestamp) -> Result<
    Seq<StoreWriteView>,
    RegistryError,
> {
    match found::<Aircraft>(s.aircraft, u.id) {
        Err(e) => Err(e),
        Ok(a) => Ok(seq![StoreWriteView::UpdateAircraft(updated_aircraft(a, u, now))]),
    }
}

/// Plans a checked update of an aircraft.
pub fn plan_aircraft_update(snapshot: &Snapshot, update: AircraftUpdate, now: Timestamp) -> (r:
    Result<Vec<StoreWrite>, RegistryError>)
    ensures
        plans(r, aircraft_update_plan(snapshot@, update@, now)),
{
    let record = match fetch(&snapshot.aircraft, update.id) {
        Ok(v) => v,
        Err(e) => {
            return Err(e);
        },
    };
    let after = record.apply_update(update, now);
    let mut writes: Vec<StoreWrite> = Vec::new();
    writes.push(StoreWrite::UpdateAircraft(after));
    assert(views(writes@) =~= seq![StoreWriteView::UpdateAircraft(after@)]);
    Ok(writes)
}

/// Updates an aircraft: the request is checked first, then the aircraft is
/// looked up.
pub fn update_aircraft(snapshot: &Snapshot, p: UpdateAircraftPayload, now: Timestamp) -> (r: Result<
    Vec<StoreWrite>,
    RegistryError,
>)
    ensures
        plans(
            r,
            match checked_aircraft_update(p) {
                Ok(u) => aircraft_update_plan(snapshot@, u, now),
                Err(e) => Err(e),
            },
        ),
{
    match check_aircraft_update(p) {
        Ok(update) => plan_aircraft_update(snapshot, update, now),
        Err(e) => Err(e),
    }
}

/// The writes that update a vertiport: one update of its record, or
/// `NotFound` where the snapshot holds no such vertiport.
pub open spec fn vertiport_update_plan(s: SnapshotView, u: VertiportUpdateView, now: Timestamp) -> Result<
    Seq<StoreWriteView>,
    RegistryError,
> {
    match found::<Vertiport>(s.vertiports, u.id) {
        Err(e) => Err(e),
        Ok(v) => Ok(seq![StoreWriteView::UpdateVertiport(updated_vertiport(v, u, now))]),
    }
}

/// Plans a checked update of a vertiport.
pub fn plan_vertiport_update(snapshot: &Snapshot, update: VertiportUpdate, now: Timestamp) -> (r:
    Result<Vec<StoreWrite>, RegistryError>)
    ensures
        plans(r, vertiport_update_plan(snapshot@, update@, now)),
{
    let record = match fetch(&snapshot.vertiports, update.id) {
        Ok(v) => v,
        Err(e) => {
            return Err(e);
        },
    };
    let after = record.apply_update(update, now);
    let mut writes: Vec<StoreWrite> = Vec::new();
    writes.push(StoreWrite::UpdateVertiport(after));
    assert(views(writes@) =~= seq![StoreWriteView::UpdateVertiport(after@)]);
    Ok(writes)
}

/// Updates a vertiport: the request is checked first, then the vertiport is
/// looked up.
pub fn update_vertiport(snapshot: &Snapshot, p: UpdateVertiportPayload, now: Timestamp) -> (r:
    Result<Vec<StoreWrite>, RegistryError>)
    ensures
        plans(
            r,
            match checked_vertiport_update(p) {
                Ok(u) => vertiport_update_plan(snapshot@, u, now),
                Err(e) => Err(e),
            },
        ),
{
    match check_vertiport_update(p) {
        Ok(update) => plan_vertiport_update(snapshot, update, now),
        Err(e) => Err(e),
    }
}

/// A vertiport that no longer hosts a vertipad.
pub open spec fn unhosting(host: VertiportView, pad: Identifier) -> VertiportView {
    VertiportView { vertipads: without_member(host.vertipads, pad), ..host }
}

/// The write that takes a vertipad off the list of the vertiport that
/// hosted it. No write is due where the pad had no host, or where the
/// snapshot does not hold the host.
pub open spec fn unlinking(s: SnapshotView, host: Option<Identifier>, pad: Identifier) -> Seq<
    StoreWriteView,
> {
    match host {
        Some(port) => match found::<Vertiport>(s.vertiports, port) {
            Ok(v) => seq![StoreWriteView::UpdateVertiport(unhosting(v, pad))],
            Err(_) => Seq::empty(),
        },
        None => Seq::empty(),
    }
}

/// The writes that update a vertipad. Where the update leaves the pad at
/// its vertiport, the update of the pad is the only one. Where it moves the
/// pad, the pad is updated first, then listed at its new vertiport, which
/// must exist, and then taken off the list of the old one.
pub open spec fn vertipad_update_plan(s: SnapshotView, u: VertipadUpdateView) -> Result<
    Seq<StoreWriteView>,
    RegistryError,
> {
    match found::<Vertipad>(s.vertipads, u.id) {
        Err(e) => Err(e),
        Ok(pad) => {
            let after = updated_vertipad(pad, u);
            if after.vertiport_id == pad.vertiport_id {
                Ok(seq![StoreWriteView::UpdateVertipad(after)])
            } else {
                match after.vertiport_id {
                    Some(port) => match found::<Vertiport>(s.vertiports, port) {
                        Err(e) => Err(e),
                        Ok(host) => Ok(
                            seq![
                                StoreWriteView::UpdateVertipad(after),
                                StoreWriteView::UpdateVertiport(hosting(host, pad.id)),
                            ] + unlinking(s, pad.vertiport_id, pad.id),
                        ),
                    },
                    None => Ok(
                        seq![StoreWriteView::UpdateVertipad(after)] + unlinking(
                            s,
                            pad.vertiport_id,
                            pad.id,
                        ),
                    ),
                }
            }
        },
    }
}

impl Vertiport {
    /// Takes a vertipad off the list of this vertiport.
    pub fn unhost(self, pad: Identifier) -> (r: Vertiport)
        ensures
            r@ == unhosting(self@, pad),
    {
        let Vertiport { basics, geo_location, description, vertipads } = self;
        let rest = remove_member(&vertipads, pad);
        Vertiport { basics, geo_location, description, vertipads: rest }
    }
}

/// Adds to `writes` the write that takes a vertipad off the list of the
/// vertiport that hosted it.
pub fn push_unlinking(
    snapshot: &Snapshot,
    host: Option<Identifier>,
    pad: Identifier,
    writes: &mut Vec<StoreWrite>,
)
    ensures
        views(final(writes)@) == views(old(writes)@) + unlinking(snapshot@, host, pad),
{
    match host {
        Some(port) => match fetch(&snapshot.vertiports, port) {
            Ok(v) => {
                let unlinked = v.unhost(pad);
                writes.push(StoreWrite::UpdateVertiport(unlinked));
                assert(views(writes@) =~= views(old(writes)@) + seq![
                    StoreWriteView::UpdateVertiport(unlinked@),
                ]);
            },
            Err(_) => {
                assert(views(writes@) =~= views(old(writes)@) + Seq::<StoreWriteView>::empty());
            },
        },
        None => {
            assert(views(writes@) =~= views(old(writes)@) + Seq::<StoreWriteView>::empty());
        },
    }
}

/// Plans a checked update of a vertipad.
pub fn plan_vertipad_update(snapshot: &Snapshot, update: VertipadUpdate) -> (r: Result<
    Vec<StoreWrite>,
    RegistryError,
>)
    ensures
        plans(r, vertipad_update_plan(snapshot@, update@)),
{
    let record = match fetch(&snapshot.vertipads, update.id) {
        Ok(v) => v,
        Err(e) => {
            return Err(e);
        },
    };
    let pad = record.id;
    let before = record.vertiport_id;
    let after = record.apply_update(update);
    let now_at = after.vertiport_id;
    let mut writes: Vec<StoreWrite> = Vec::new();
    if now_at == before {
        writes.push(StoreWrite::UpdateVertipad(after));
        assert(views(writes@) =~= seq![StoreWriteView::UpdateVertipad(after@)]);
        return Ok(writes);
    }
    match now_at {
        Some(port) => {
            let host = match fetch(&snapshot.vertiports, port) {
                Ok(v) => v,
                Err(e) => {
                    return Err(e);
                },
            };
            let linked = host.host(pad);
            writes.push(StoreWrite::UpdateVertipad(after));
            writes.push(StoreWrite::UpdateVertiport(linked));
            assert(views(writes@) =~= seq![
                StoreWriteView::UpdateVertipad(after@),
                StoreWriteView::UpdateVertiport(linked@),
            ]);
        },
        None => {
            writes.push(StoreWrite::UpdateVertipad(after));
            assert(views(writes@) =~= seq![StoreWriteView::UpdateVertipad(after@)]);
        },
    }
    push_unlinking(snapshot, before, pad, &mut writes);
    Ok(writes)
}

/// Updates a vertipad: the request is checked first, then the vertipad is
/// looked up.
pub fn update_vertipad(snapshot: &Snapshot, p: UpdateVertipadPayload) -> (r: Result<
    Vec<StoreWrite>,
    RegistryError,
>)
    ensures
        plans(
            r,
            match checked_vertipad_update(p) {
                Ok(u) => vertipad_update_plan(snapshot@, u),
                Err(e) => Err(e),
            },
        ),
{
    match check_vertipad_update(p) {
        Ok(update) => plan_vertipad_update(snapshot, update),
        Err(e) => Err(e),
    }
}

/// The writes that update a group: one update of its record, or `NotFound`
/// where the snapshot holds no such group.
pub open spec fn group_update_plan(s: SnapshotView, u: AssetGroupUpdateView, now: Timestamp) -> Result<
    Seq<StoreWriteView>,
    RegistryError,
> {
    match found::<AssetGroup>(s.groups, u.id) {
        Err(e) => Err(e),
        Ok(g) => Ok(seq![StoreWriteView::UpdateAssetGroup(updated_group(g, u, now))]),
    }
}

/// Plans a checked update of a group.
pub fn plan_group_update(snapshot: &Snapshot, update: AssetGroupUpdate, now: Timestamp) -> (r:
    Result<Vec<StoreWrite>, RegistryError>)
    ensures
        plans(r, group_update_plan(snapshot@, update@, now)),
{
    let record = match fetch(&snapshot.groups, update.id) {
        Ok(v) => v,
        Err(e) => {
            return Err(e);
        },
    };
    let after = record.apply_update(update, now);
    let mut writes: Vec<StoreWrite> = Vec::new();
    writes.push(StoreWrite::UpdateAssetGroup(after));
    assert(views(writes@) =~= seq![StoreWriteView::UpdateAssetGroup(after@)]);
    Ok(writes)
}

/// Updates a group: the request is checked first, then the group is looked up.
pub fn update_asset_group(snapshot: &Snapshot, p: UpdateAssetGroupPayload, now: Timestamp) -> (r:
    Result<Vec<StoreWrite>, RegistryError>)
    ensures
        plans(
            r,
            match checked_group_update(p) {
                Ok(u) => group_update_plan(snapshot@, u, now),
                Err(e) => Err(e),
            },
        ),
{
    match check_group_update(p) {
        Ok(update) => plan_group_update(snapshot, update, now),
        Err(e) => Err(e),
    }
}

} // verus!
