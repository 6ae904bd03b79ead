//! Removing entities: a removal also writes off what refers to the entity,
//! and the entity itself goes last.

use crate::amend::{push_unlinking, unlinking};
use crate::entity::{
    Aircraft, AircraftView, AssetGroup, AssetGroupView, BasicsView, Vertipad, VertipadView,
    Vertiport, VertiportView,
};
use crate::error::RegistryError;
use crate::group::{remove_member, without_member};
use crate::identifier::{identifier_of, parse_identifier, Identifier};
use crate::snapshot::{fetch, find, found, holds, views, Record, Snapshot, SnapshotView};
use crate::store::{plans, StoreWrite, StoreWriteView};
use vstd::prelude::*;

verus! {

/// What is to happen to the vertipads of a vertiport that is removed.
#[derive(Clone, Copy, Debug, PartialEq, Eq, Hash, Structural)]
pub enum RemovalPolicy {
    /// The vertiport is not removed while a vertipad refers to it.
    Reject,
    /// The vertipads stay, without a vertiport.
    Detach,
}

/// The test that the vertipads of a vertiport pass.
pub open spec fn attached_to(port: Identifier) -> spec_fn(VertipadView) -> bool {
    |p: VertipadView| p.vertiport_id == Some(port)
}

/// A vertipad without a vertiport.
pub open spec fn detached(p: VertipadView) -> VertipadView {
    VertipadView { vertiport_id: None, ..p }
}

/// The write that detaches a vertipad.
pub open spec fn detaching() -> spec_fn(VertipadView) -> StoreWriteView {
    |p: VertipadView| StoreWriteView::UpdateVertipad(detached(p))
}

/// The writes that detach the vertipads of a vertiport, in the order of the pads.
pub open spec fn detachments(pads: Seq<VertipadView>, port: Identifier) -> Seq<StoreWriteView> {
    pads.filter(attached_to(port)).map_values(detaching())
}

/// The test that the groups pass which hold an asset.
pub open spec fn holding(asset: Identifier) -> spec_fn(AssetGroupView) -> bool {
    |g: AssetGroupView| g.assets.contains(asset)
}

/// A group that no longer holds an asset.
pub open spec fn released(g: AssetGroupView, asset: Identifier) -> AssetGroupView {
    AssetGroupView { assets: without_member(g.assets, asset), ..g }
}

/// The write that takes an asset out of a group.
pub open spec fn releasing(asset: Identifier) -> spec_fn(AssetGroupView) -> StoreWriteView {
    |g: AssetGroupView| StoreWriteView::UpdateAssetGroup(released(g, asset))
}

/// The writes that take an asset out of every group that holds it, in the
/// order of the groups.
pub open spec fn releases(groups: Seq<AssetGroupView>, asset: Identifier) -> Seq<StoreWriteView> {
    groups.filter(holding(asset)).map_values(releasing(asset))
}

/// The test that the aircraft pass which refer to a group.
pub open spec fn aircraft_of(group: Identifier) -> spec_fn(AircraftView) -> bool {
    |a: AircraftView| a.basics.group_id == Some(group)
}

/// The test that the vertiports pass which refer to a group.
pub open spec fn vertiports_of(group: Identifier) -> spec_fn(VertiportView) -> bool {
    |v: VertiportView| v.basics.group_id == Some(group)
}

/// The common part of an asset that refers to no group.
pub open spec fn ungrouped(b: BasicsView) -> BasicsView {
    BasicsView { group_id: None, ..b }
}

/// The write that clears the reference of an aircraft to its group.
pub open spec fn ungrouping_aircraft() -> spec_fn(AircraftView) -> StoreWriteView {
    |a: AircraftView| StoreWriteView::UpdateAircraft(AircraftView { basics: ungrouped(a.basics), ..a })
}

/// The write that clears the reference of a vertiport to its group.
pub open spec fn ungrouping_vertiport() -> spec_fn(VertiportView) -> StoreWriteView {
    |v: VertiportView|
        StoreWriteView::UpdateVertiport(VertiportView { basics: ungrouped(v.basics), ..v })
}

/// The writes that clear every reference to a group: those of the aircraft
/// first, then those of the vertiports.
pub open spec fn ungroupings(s: SnapshotView, group: Identifier) -> Seq<StoreWriteView> {
    s.aircraft.filter(aircraft_of(group)).map_values(ungrouping_aircraft())
        + s.vertiports.filter(vertiports_of(group)).map_values(ungrouping_vertiport())
}

/// The writes that remove an aircraft: it leaves every group that holds it,
/// then its record is deleted. `NotFound` where the snapshot holds no such
/// aircraft.
pub open spec fn aircraft_removal(s: SnapshotView, id: Identifier) -> Result<
    Seq<StoreWriteView>,
    RegistryError,
> {
    if holds::<Aircraft>(s.aircraft, id) {
        Ok(releases(s.groups, id).push(StoreWriteView::DeleteAircraft(id)))
    } else {
        Err(RegistryError::NotFound)
    }
}

/// The writes that remove a vertiport: its vertipads are detached, it
/// leaves every group that holds it, then its record is deleted. `NotFound`
/// where the snapshot holds no such vertiport, and a `Conflict` where a
/// vertipad refers to it and the policy is to reject the removal then.
pub open spec fn vertiport_removal(s: SnapshotView, id: Identifier, policy: RemovalPolicy) -> Result<
    Seq<StoreWriteView>,
    RegistryError,
> {
    if !holds::<Vertiport>(s.vertiports, id) {
        Err(RegistryError::NotFound)
    } else if policy == RemovalPolicy::Reject && s.vertipads.filter(attached_to(id)).len() > 0 {
        Err(RegistryError::Conflict)
    } else {
        Ok(
            (detachments(s.vertipads, id) + releases(s.groups, id)).push(
                StoreWriteView::DeleteVertiport(id),
            ),
        )
    }
}

/// The writes that remove a vertipad: it is taken off the list of its
/// vertiport, then its record is deleted. `NotFound` where the snapshot
/// holds no such vertipad.
pub open spec fn vertipad_removal(s: SnapshotView, id: Identifier) -> Result<
    Seq<StoreWriteView>,
    RegistryError,
> {
    match found::<Vertipad>(s.vertipads, id) {
        Err(e) => Err(e),
        Ok(pad) => Ok(unlinking(s, pad.vertiport_id, id).push(StoreWriteView::DeleteVertipad(id))),
    }
}

/// The writes that remove a group: every reference of an asset to the
/// group is cleared, then the record of the group is deleted. `NotFound`
/// where the snapshot holds no such group.
pub open spec fn group_removal(s: SnapshotView, id: Identifier) -> Result<
    Seq<StoreWriteView>,
    RegistryError,
> {
    if holds::<AssetGroup>(s.groups, id) {
        Ok(ungroupings(s, id).push(StoreWriteView::DeleteAssetGroup(id)))
    } else {
        Err(RegistryError::NotFound)
    }
}

fn push_detachments(pads: &Vec<Vertipad>, port: Identifier, writes: &mut Vec<StoreWrite>)
    ensures
        views(final(writes)@) == views(old(writes)@) + detachments(views(pads@), port),
{
    let ghost list = views(pads@);
    let ghost test = attached_to(port);
    let ghost change = detaching();
    let mut i: usize = 0;
    assert(views(writes@) =~= views(old(writes)@) + list.take(0).filter(test).map_values(change));
    while i < pads.len()
        invariant
            i <= pads.len(),
            list == views(pads@),
            test == attached_to(port),
            change == detaching(),
            views(writes@) == views(old(writes)@) + list.take(i as int).filter(test).map_values(
                change,
            ),
        decreases pads.len() - i,
    {
        let ghost before = views(writes@);
        let ghost e = list[i as int];
        proof {
            let head = list.take(i as int);
            assert(list.take(i + 1) =~= head.push(e));
            head.lemma_filter_push(e, test);
            head.filter(test).lemma_push_map_commute(change, e);
        }
        if pads[i].vertiport_id == Some(port) {
            let mut pad = pads[i].duplicate();
            pad.vertiport_id = None;
            writes.push(StoreWrite::UpdateVertipad(pad));
            assert(views(writes@) =~= before.push(change(e)));
        }
        i = i + 1;
        assert(views(writes@) =~= views(old(writes)@) + list.take(i as int).filter(
            test,
        ).map_values(change));
    }
    assert(list.take(pads.len() as int) =~= list);
}

fn push_releases(groups: &Vec<AssetGroup>, asset: Identifier, writes: &mut Vec<StoreWrite>)
    ensures
        views(final(writes)@) == views(old(writes)@) + releases(views(groups@), asset),
{
    let ghost list = views(groups@);
    let ghost test = holding(asset);
    let ghost change = releasing(asset);
    let mut i: usize = 0;
    assert(views(writes@) =~= views(old(writes)@) + list.take(0).filter(test).map_values(change));
    while i < groups.len()
        invariant
            i <= groups.len(),
            list == views(groups@),
            test == holding(asset),
            change == releasing(asset),
            views(writes@) == views(old(writes)@) + list.take(i as int).filter(test).map_values(
                change,
            ),
        decreases groups.len() - i,
    {
        let ghost before = views(writes@);
        let ghost e = list[i as int];
        proof {
            let head = list.take(i as int);
            assert(list.take(i + 1) =~= head.push(e));
            head.lemma_filter_push(e, test);
            head.filter(test).lemma_push_map_commute(change, e);
        }
        if groups[i].contains(asset) {
            let mut group = groups[i].duplicate();
            group.assets = remove_member(&group.assets, asset);
            writes.push(StoreWrite::UpdateAssetGroup(group));
            assert(views(writes@) =~= before.push(change(e)));
        }
        i = i + 1;
        assert(views(writes@) =~= views(old(writes)@) + list.take(i as int).filter(
            test,
        ).map_values(change));
    }
    assert(list.take(groups.len() as int) =~= list);
}

fn push_aircraft_ungroupings(fleet: &Vec<Aircraft>, group: Identifier, writes: &mut Vec<StoreWrite>)
    ensures
        views(final(writes)@) == views(old(writes)@) + views(fleet@).filter(
            aircraft_of(group),
        ).map_values(ungrouping_aircraft()),
{
    let ghost list = views(fleet@);
    let ghost test = aircraft_of(group);
    let ghost change = ungrouping_aircraft();
    let mut i: usize = 0;
    assert(views(writes@) =~= views(old(writes)@) + list.take(0).filter(test).map_values(change));
    while i < fleet.len()
        invariant
            i <= fleet.len(),
            list == views(fleet@),
            test == aircraft_of(group),
            change == ungrouping_aircraft(),
            views(writes@) == views(old(writes)@) + list.take(i as int).filter(test).map_values(
                change,
            ),
        decreases fleet.len() - i,
    {
        let ghost before = views(writes@);
        let ghost e = list[i as int];
        proof {
            let head = list.take(i as int);
            assert(list.take(i + 1) =~= head.push(e));
            head.lemma_filter_push(e, test);
            head.filter(test).lemma_push_map_commute(change, e);
        }
        if fleet[i].basics.group_id == Some(group) {
            let mut record = fleet[i].duplicate();
            record.basics.group_id = None;
            writes.push(StoreWrite::UpdateAircraft(record));
            assert(views(writes@) =~= before.push(change(e)));
        }
        i = i + 1;
        assert(views(writes@) =~= views(old(writes)@) + list.take(i as int).filter(
            test,
        ).map_values(change));
    }
    assert(list.take(fleet.len() as int) =~= list);
}

fn push_vertiport_ungroupings(
    ports: &Vec<Vertiport>,
    group: Identifier,
    writes: &mut Vec<StoreWrite>,
)
    ensures
        views(final(writes)@) == views(old(writes)@) + views(ports@).filter(
            vertiports_of(group),
        ).map_values(ungrouping_vertiport()),
{
    let ghost list = views(ports@);
    let ghost test = vertiports_of(group);
    let ghost change = ungrouping_vertiport();
    let mut i: usize = 0;
    assert(views(writes@) =~= views(old(writes)@) + list.take(0).filter(test).map_values(change));
    while i < ports.len()
        invariant
            i <= ports.len(),
            list == views(ports@),
            test == vertiports_of(group),
            change == ungrouping_vertiport(),
            views(writes@) == views(old(writes)@) + list.take(i as int).filter(test).map_values(
                change,
            ),
        decreases ports.len() - i,
    {
        let ghost before = views(writes@);
        let ghost e = list[i as int];
        proof {
            let head = list.take(i as int);
            assert(list.take(i + 1) =~= head.push(e));
            head.lemma_filter_push(e, test);
            head.filter(test).lemma_push_map_commute(change, e);
        }
        if ports[i].basics.group_id == Some(group) {
            let mut record = ports[i].duplicate();
            record.basics.group_id = None;
            writes.push(StoreWrite::UpdateVertiport(record));
            assert(views(writes@) =~= before.push(change(e)));
        }
        i = i + 1;
        assert(views(writes@) =~= views(old(writes)@) + list.take(i as int).filter(
            test,
        ).map_values(change));
    }
    assert(list.take(ports.len() as int) =~= list);
}

/// Plans the removal of an aircraft.
pub fn plan_aircraft_removal(snapshot: &Snapshot, id: Identifier) -> (r: Result<
    Vec<StoreWrite>,
    RegistryError,
>)
    ensures
        plans(r, aircraft_removal(snapshot@, id)),
{
    if find(&snapshot.aircraft, id).is_none() {
        return Err(RegistryError::NotFound);
    }
    let mut writes: Vec<StoreWrite> = Vec::new();
    push_releases(&snapshot.groups, id, &mut writes);
    writes.push(StoreWrite::DeleteAircraft(id));
    assert(views(writes@) =~= releases(snapshot@.groups, id).push(
        StoreWriteView::DeleteAircraft(id),
    ));
    Ok(writes)
}

/// Plans the removal of a vertiport under a policy for its vertipads.
pub fn plan_vertiport_removal(snapshot: &Snapshot, id: Identifier, policy: RemovalPolicy) -> (r:
    Result<Vec<StoreWrite>, RegistryError>)
    ensures
        plans(r, vertiport_removal(snapshot@, id, policy)),
{
    if find(&snapshot.vertiports, id).is_none() {
        return Err(RegistryError::NotFound);
    }
    let mut writes: Vec<StoreWrite> = Vec::new();
    push_detachments(&snapshot.vertipads, id, &mut writes);
    assert(views(writes@) =~= detachments(snapshot@.vertipads, id));
    if policy == RemovalPolicy::Reject && writes.len() > 0 {
        return Err(RegistryError::Conflict);
    }
    push_releases(&snapshot.groups, id, &mut writes);
    writes.push(StoreWrite::DeleteVertiport(id));
    assert(views(writes@) =~= (detachments(snapshot@.vertipads, id) + releases(
        snapshot@.groups,
        id,
    )).push(StoreWriteView::DeleteVertiport(id)));
    Ok(writes)
}

/// Plans the removal of a vertipad.
pub fn plan_vertipad_removal(snapshot: &Snapshot, id: Identifier) -> (r: Result<
    Vec<StoreWrite>,
    RegistryError,
>)
    ensures
        plans(r, vertipad_removal(snapshot@, id)),
{
    let pad = match fetch(&snapshot.vertipads, id) {
        Ok(v) => v,
        Err(e) => {
            return Err(e);
        },
    };
    let mut writes: Vec<StoreWrite> = Vec::new();
    push_unlinking(snapshot, pad.vertiport_id, id, &mut writes);
    writes.push(StoreWrite::DeleteVertipad(id));
    assert(views(writes@) =~= unlinking(snapshot@, pad@.vertiport_id, id).push(
        StoreWriteView::DeleteVertipad(id),
    ));
    Ok(writes)
}

/// Plans the removal of a group.
pub fn plan_group_removal(snapshot: &Snapshot, id: Identifier) -> (r: Result<
    Vec<StoreWrite>,
    RegistryError,
>)
    ensures
        plans(r, group_removal(snapshot@, id)),
{
    if find(&snapshot.groups, id).is_none() {
        return Err(RegistryError::NotFound);
    }
    let mut writes: Vec<StoreWrite> = Vec::new();
    push_aircraft_ungroupings(&snapshot.aircraft, id, &mut writes);
    push_vertiport_ungroupings(&snapshot.vertiports, id, &mut writes);
    writes.push(StoreWrite::DeleteAssetGroup(id));
    assert(views(writes@) =~= ungroupings(snapshot@, id).push(
        StoreWriteView::DeleteAssetGroup(id),
    ));
    Ok(writes)
}

/// Removes an aircraft. A text that spells no identifier is an
/// `InvalidFormat`.
pub fn remove_aircraft(snapshot: &Snapshot, aircraft_id: &str) -> (r: Result<
    Vec<StoreWrite>,
    RegistryError,
>)
    ensures
        plans(
            r,
            match identifier_of(aircraft_id@) {
                Ok(id) => aircraft_removal(snapshot@, id),
                Err(e) => Err(e),
            },
        ),
{
    match parse_identifier(aircraft_id) {
        Ok(id) => plan_aircraft_removal(snapshot, id),
        Err(e) => Err(e),
    }
}

/// Removes a vertiport under a policy for its vertipads. A text that
/// spells no identifier is an `InvalidFormat`.
pub fn remove_vertiport(snapshot: &Snapshot, vertiport_id: &str, policy: RemovalPolicy) -> (r:
    Result<Vec<StoreWrite>, RegistryError>)
    ensures
        plans(
            r,
            match identifier_of(vertiport_id@) {
                Ok(id) => vertiport_removal(snapshot@, id, policy),
                Err(e) => Err(e),
            },
        ),
{
    match parse_identifier(vertiport_id) {
        Ok(id) => plan_vertiport_removal(snapshot, id, policy),
        Err(e) => Err(e),
    }
}

/// Removes a vertipad. A text that spells no identifier is an
/// `InvalidFormat`.
pub fn remove_vertipad(snapshot: &Snapshot, vertipad_id: &str) -> (r: Result<
    Vec<StoreWrite>,
    RegistryError,
>)
    ensures
        plans(
            r,
            match identifier_of(vertipad_id@) {
                Ok(id) => vertipad_removal(snapshot@, id),
                Err(e) => Err(e),
            },
        ),
{
    match parse_identifier(vertipad_id) {
        Ok(id) => plan_vertipad_removal(snapshot, id),
        Err(e) => Err(e),
    }
}

/// Removes a group. A text that spells no identifier is an `InvalidFormat`.
pub fn remove_asset_group(snapshot: &Snapshot, asset_group_id: &str) -> (r: Result<
    Vec<StoreWrite>,
    RegistryError,
>)
    ensures
        plans(
            r,
            match identifier_of(asset_group_id@) {
                Ok(id) => group_removal(snapshot@, id),
                Err(e) => Err(e),
            },
        ),
{
    match parse_identifier(asset_group_id) {
        Ok(id) => plan_group_removal(snapshot, id),
        Err(e) => Err(e),
    }
}

} // verus!
