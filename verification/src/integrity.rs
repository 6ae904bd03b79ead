//! What the writes of an operation leave behind: once the writes of a
//! removal are made, nothing refers to the entity that was removed, and no
//! write makes two records share an identifier.

use crate::amend::{unhosting, unlinking};
use crate::entity::{
    Aircraft, AircraftView, AssetGroup, AssetGroupView, Vertipad, VertipadView, Vertiport,
    VertiportView,
};
use crate::error::{RegistryError, StoreError};
use crate::group::{other_than, without_member};
use crate::identifier::Identifier;
use crate::registration::{
    checked_vertipad_host, hosting, required_identifier, vertipad_registration,
};
use crate::removal::{
    aircraft_of, aircraft_removal, attached_to, detached, detaching, detachments, group_removal,
    holding, released, releases, releasing, ungrouped, ungrouping_aircraft,
    ungrouping_vertiport, vertipad_removal, vertiport_removal, vertiports_of,
    RemovalPolicy,
};
use crate::snapshot::{found, holds, is_first, Record, SnapshotView};
use crate::store::{
    deleted, inserted, lemma_first_is_unique, place, replaced, unique_keys, written,
    written_all, StoreWriteView,
};
use crate::types::RegisterVertipadPayload;
use vstd::prelude::*;

verus! {

/// A kind of record, with its place in a snapshot and the write that
/// updates a record of the kind.
pub trait Stored: Record {
    /// The records of this kind in a snapshot.
    spec fn records_of(s: SnapshotView) -> Seq<Self::V>;

    /// A snapshot with other records of this kind.
    spec fn with_records(s: SnapshotView, records: Seq<Self::V>) -> SnapshotView;

    /// The write that updates a record of this kind.
    spec fn update_of(r: Self::V) -> StoreWriteView;

    /// An update of this kind replaces a record of this kind and leaves the
    /// records of the other kinds alone.
    proof fn lemma_update_written(s: SnapshotView, r: Self::V)
        ensures
            written(s, Self::update_of(r)) == (match replaced::<Self>(Self::records_of(s), r) {
                Ok(after) => Ok::<SnapshotView, StoreError>(Self::with_records(s, after)),
                Err(e) => Err::<SnapshotView, StoreError>(e),
            }),
    ;

    /// The records of this kind are a part of the snapshot of their own.
    proof fn lemma_records_apart(s: SnapshotView, a: Seq<Self::V>, b: Seq<Self::V>)
        ensures
            Self::records_of(Self::with_records(s, a)) == a,
            Self::with_records(Self::with_records(s, a), b) == Self::with_records(s, b),
            Self::with_records(s, Self::records_of(s)) == s,
    ;
}

impl Stored for Aircraft {
    open spec fn records_of(s: SnapshotView) -> Seq<AircraftView> {
        s.aircraft
    }

    open spec fn with_records(s: SnapshotView, records: Seq<AircraftView>) -> SnapshotView {
        SnapshotView { aircraft: records, ..s }
    }

    open spec fn update_of(r: AircraftView) -> StoreWriteView {
        StoreWriteView::UpdateAircraft(r)
    }

    proof fn lemma_update_written(s: SnapshotView, r: AircraftView) {
    }

    proof fn lemma_records_apart(s: SnapshotView, a: Seq<AircraftView>, b: Seq<AircraftView>) {
    }
}

impl Stored for Vertiport {
    open spec fn records_of(s: SnapshotView) -> Seq<VertiportView> {
        s.vertiports
    }

    open spec fn with_records(s: SnapshotView, records: Seq<VertiportView>) -> SnapshotView {
        SnapshotView { vertiports: records, ..s }
    }

    open spec fn update_of(r: VertiportView) -> StoreWriteView {
        StoreWriteView::UpdateVertiport(r)
    }

    proof fn lemma_update_written(s: SnapshotView, r: VertiportView) {
    }

    proof fn lemma_records_apart(s: SnapshotView, a: Seq<VertiportView>, b: Seq<VertiportView>) {
    }
}

impl Stored for Vertipad {
    open spec fn records_of(s: SnapshotView) -> Seq<VertipadView> {
        s.vertipads
    }

    open spec fn with_records(s: SnapshotView, records: Seq<VertipadView>) -> SnapshotView {
        SnapshotView { vertipads: records, ..s }
    }

    open spec fn update_of(r: VertipadView) -> StoreWriteView {
        StoreWriteView::UpdateVertipad(r)
    }

    proof fn lemma_update_written(s: SnapshotView, r: VertipadView) {
    }

    proof fn lemma_records_apart(s: SnapshotView, a: Seq<VertipadView>, b: Seq<VertipadView>) {
    }
}

impl Stored for AssetGroup {
    open spec fn records_of(s: SnapshotView) -> Seq<AssetGroupView> {
        s.groups
    }

    open spec fn with_records(s: SnapshotView, records: Seq<AssetGroupView>) -> SnapshotView {
        SnapshotView { groups: records, ..s }
    }

    open spec fn update_of(r: AssetGroupView) -> StoreWriteView {
        StoreWriteView::UpdateAssetGroup(r)
    }

    proof fn lemma_update_written(s: SnapshotView, r: AssetGroupView) {
    }

    proof fn lemma_records_apart(s: SnapshotView, a: Seq<AssetGroupView>, b: Seq<AssetGroupView>) {
    }
}

/// Whether no two records of one kind are stored under the same identifier.
pub open spec fn well_keyed(s: SnapshotView) -> bool {
    &&& unique_keys::<Aircraft>(s.aircraft)
    &&& unique_keys::<Vertiport>(s.vertiports)
    &&& unique_keys::<Vertipad>(s.vertipads)
    &&& unique_keys::<AssetGroup>(s.groups)
}

/// A list of records in which each of the first `n` records that passes a
/// test was changed, and every other record is as it was.
pub open spec fn changed_upto<V>(
    records: Seq<V>,
    test: spec_fn(V) -> bool,
    change: spec_fn(V) -> V,
    n: int,
) -> Seq<V> {
    Seq::new(
        records.len(),
        |i: int|
            if i < n && test(records[i]) {
                change(records[i])
            } else {
                records[i]
            },
    )
}

/// Making the writes of one sequence and then those of another is making
/// the writes of the two in a row.
pub proof fn lemma_written_in_a_row(s: SnapshotView, a: Seq<StoreWriteView>, b: Seq<StoreWriteView>)
    ensures
        written_all(s, a + b) == (match written_all(s, a) {
            Ok(between) => written_all(between, b),
            Err(e) => Err::<SnapshotView, StoreError>(e),
        }),
    decreases b.len(),
{
    if b.len() == 0 {
        assert(a + b =~= a);
    } else {
        assert((a + b).drop_last() =~= a + b.drop_last());
        assert((a + b).last() == b.last());
        lemma_written_in_a_row(s, a, b.drop_last());
    }
}

/// Where the records of a kind are stored under different identifiers, the
/// writes that update those of the first `n` records which pass a test, each
/// by a change that keeps the identifier, all succeed and change just those
/// records.
pub proof fn lemma_changes_written<T: Stored>(
    s: SnapshotView,
    test: spec_fn(T::V) -> bool,
    change: spec_fn(T::V) -> T::V,
    write: spec_fn(T::V) -> StoreWriteView,
    n: int,
)
    requires
        unique_keys::<T>(T::records_of(s)),
        forall|v: T::V| T::key_of(#[trigger] change(v)) == T::key_of(v),
        forall|v: T::V| #[trigger] write(v) == T::update_of(change(v)),
        0 <= n <= T::records_of(s).len(),
    ensures
        written_all(s, T::records_of(s).take(n).filter(test).map_values(write)) == Ok::<
            SnapshotView,
            StoreError,
        >(T::with_records(s, changed_upto(T::records_of(s), test, change, n))),
    decreases n,
{
    let records = T::records_of(s);
    if n == 0 {
        assert(records.take(0).filter(test).map_values(write) =~= Seq::<StoreWriteView>::empty());
        assert(changed_upto(records, test, change, 0) =~= records);
        T::lemma_records_apart(s, records, records);
    } else {
        let m = n - 1;
        lemma_changes_written::<T>(s, test, change, write, m);
        let head = records.take(m);
        let e = records[m];
        let ws = head.filter(test).map_values(write);
        let before = changed_upto(records, test, change, m);
        let after = changed_upto(records, test, change, n);
        assert(records.take(n) =~= head.push(e));
        head.lemma_filter_push(e, test);
        head.filter(test).lemma_push_map_commute(write, e);
        if test(e) {
            let all = records.take(n).filter(test).map_values(write);
            assert(all =~= ws.push(write(e)));
            assert(all.drop_last() =~= ws);
            assert(all.last() == write(e));
            let mid = T::with_records(s, before);
            T::lemma_update_written(mid, change(e));
            T::lemma_records_apart(s, before, after);
            let id = T::key_of(e);
            assert(before[m] == e);
            assert(T::key_of(before[m]) == id);
            assert(is_first::<T>(before, id, m)) by {
                assert forall|j: int| 0 <= j < m implies T::key_of(#[trigger] before[j]) != id by {
                    assert(T::key_of(before[j]) == T::key_of(records[j]));
                    assert(T::key_of(records[j]) != T::key_of(records[m]));
                }
            }
            lemma_first_is_unique::<T>(before, id, m, place::<T>(before, id));
            assert(before.update(m, change(e)) =~= after);
        } else {
            assert(before =~= after);
        }
    }
}

/// Where no two records share an identifier, the record that was deleted
/// is gone.
pub proof fn lemma_deleted_is_gone<T: Record>(records: Seq<T::V>, id: Identifier)
    requires
        unique_keys::<T>(records),
        holds::<T>(records, id),
    ensures
        deleted::<T>(records, id) matches Ok(after) && !holds::<T>(after, id),
{
    let p = place::<T>(records, id);
    let k = choose|k: int| 0 <= k < records.len() && T::key_of(#[trigger] records[k]) == id;
    lemma_first_exists::<T>(records, id, k);
    let after = records.remove(p);
    assert forall|i: int| 0 <= i < after.len() implies T::key_of(#[trigger] after[i]) != id by {
        if i < p {
            assert(after[i] == records[i]);
        } else {
            assert(after[i] == records[i + 1]);
            assert(T::key_of(records[p]) != T::key_of(records[i + 1]));
        }
    }
}

/// Where a record is stored under an identifier, one of them is the first.
pub proof fn lemma_first_exists<T: Record>(records: Seq<T::V>, id: Identifier, k: int)
    requires
        0 <= k < records.len(),
        T::key_of(records[k]) == id,
    ensures
        is_first::<T>(records, id, place::<T>(records, id)),
    decreases k,
{
    if exists|j: int| 0 <= j < k && T::key_of(#[trigger] records[j]) == id {
        let j = choose|j: int| 0 <= j < k && T::key_of(#[trigger] records[j]) == id;
        lemma_first_exists::<T>(records, id, j);
    } else {
        assert(is_first::<T>(records, id, k));
    }
}

/// A member that was taken out of a list is not in the list.
pub proof fn lemma_taken_out_is_out(members: Seq<Identifier>, id: Identifier)
    ensures
        !without_member(members, id).contains(id),
{
    let rest = without_member(members, id);
    if rest.contains(id) {
        let k = choose|k: int| 0 <= k < rest.len() && rest[k] == id;
        members.lemma_filter_pred(other_than(id), k);
    }
}

/// The writes of a sequence of one write are that write, and those of a
/// sequence of two are the first and then the second.
pub proof fn lemma_written_few(s: SnapshotView, a: StoreWriteView, b: StoreWriteView)
    ensures
        written_all(s, seq![a]) == written(s, a),
        written_all(s, seq![a, b]) == (match written(s, a) {
            Ok(between) => written(between, b),
            Err(e) => Err::<SnapshotView, StoreError>(e),
        }),
{
    assert(seq![a].drop_last() =~= Seq::<StoreWriteView>::empty());
    assert(written_all(s, seq![a].drop_last()) == Ok::<SnapshotView, StoreError>(s));
    assert(seq![a, b].drop_last() =~= seq![a]);
    assert(seq![a, b].last() == b);
}

/// The change that detaches a vertipad.
pub open spec fn detaching_pad() -> spec_fn(VertipadView) -> VertipadView {
    |p: VertipadView| detached(p)
}

/// Once the writes of a successful removal of a vertiport are made on the
/// records they were planned for, they have all succeeded, the vertiport is
/// gone, no vertipad refers to it and no group holds it. The aircraft and the
/// operators are as they were, and so is every vertipad that did not refer
/// to the vertiport.
pub proof fn lemma_vertiport_removal_leaves_no_orphan(
    s: SnapshotView,
    id: Identifier,
    policy: RemovalPolicy,
)
    requires
        well_keyed(s),
        vertiport_removal(s, id, policy) is Ok,
    ensures
        written_all(s, vertiport_removal(s, id, policy)->Ok_0) matches Ok(after) && {
            &&& !holds::<Vertiport>(after.vertiports, id)
            &&& forall|i: int|
                0 <= i < after.vertipads.len() ==> (#[trigger] after.vertipads[i]).vertiport_id
                    != Some(id)
            &&& forall|i: int|
                0 <= i < after.groups.len() ==> !(#[trigger] after.groups[i]).assets.contains(id)
            &&& after.vertipads == changed_upto(
                s.vertipads,
                attached_to(id),
                detaching_pad(),
                s.vertipads.len() as int,
            )
            &&& after.vertiports == s.vertiports.remove(place::<Vertiport>(s.vertiports, id))
            &&& after.aircraft == s.aircraft
            &&& after.operators == s.operators
        },
{
    let detach = detaching_pad();
    let release = |g: AssetGroupView| released(g, id);
    let pads = changed_upto(s.vertipads, attached_to(id), detach, s.vertipads.len() as int);
    let groups = changed_upto(s.groups, holding(id), release, s.groups.len() as int);
    let d = detachments(s.vertipads, id);
    let g = releases(s.groups, id);
    let last = seq![StoreWriteView::DeleteVertiport(id)];
    assert(vertiport_removal(s, id, policy)->Ok_0 =~= (d + g) + last);

    lemma_changes_written::<Vertipad>(s, attached_to(id), detach, detaching(), s.vertipads.len() as int);
    assert(s.vertipads.take(s.vertipads.len() as int) =~= s.vertipads);
    let s1 = SnapshotView { vertipads: pads, ..s };
    assert(written_all(s, d) == Ok::<SnapshotView, StoreError>(s1));

    lemma_changes_written::<AssetGroup>(s1, holding(id), release, releasing(id), s.groups.len() as int);
    assert(s.groups.take(s.groups.len() as int) =~= s.groups);
    let s2 = SnapshotView { groups: groups, ..s1 };
    assert(written_all(s1, g) == Ok::<SnapshotView, StoreError>(s2));

    lemma_written_in_a_row(s, d, g);
    lemma_written_in_a_row(s, d + g, last);
    assert(last.drop_last() =~= Seq::<StoreWriteView>::empty());
    assert(written_all(s2, last) == written(s2, StoreWriteView::DeleteVertiport(id))) by {
        assert(written_all(s2, last.drop_last()) == Ok::<SnapshotView, StoreError>(s2));
        assert(last.last() == StoreWriteView::DeleteVertiport(id));
    }
    lemma_deleted_is_gone::<Vertiport>(s.vertiports, id);

    assert forall|i: int| 0 <= i < groups.len() implies !(#[trigger] groups[i]).assets.contains(
        id,
    ) by {
        lemma_taken_out_is_out(s.groups[i].assets, id);
    }
}

/// While a vertipad refers to a vertiport, the removal of the vertiport
/// fails with a `Conflict` under the policy to reject it.
pub proof fn lemma_vertiport_removal_rejected(s: SnapshotView, id: Identifier, i: int)
    requires
        holds::<Vertiport>(s.vertiports, id),
        0 <= i < s.vertipads.len(),
        s.vertipads[i].vertiport_id == Some(id),
    ensures
        vertiport_removal(s, id, RemovalPolicy::Reject) == Err::<
            Seq<StoreWriteView>,
            RegistryError,
        >(RegistryError::Conflict),
{
    s.vertipads.lemma_filter_contains(attached_to(id), i);
}

/// Once the writes of a successful removal of an aircraft are made on the
/// records they were planned for, they have all succeeded, the aircraft is
/// gone and no group holds it.
pub proof fn lemma_aircraft_removal_leaves_no_member(s: SnapshotView, id: Identifier)
    requires
        well_keyed(s),
        aircraft_removal(s, id) is Ok,
    ensures
        written_all(s, aircraft_removal(s, id)->Ok_0) matches Ok(after) && {
            &&& !holds::<Aircraft>(after.aircraft, id)
            &&& forall|i: int|
                0 <= i < after.groups.len() ==> !(#[trigger] after.groups[i]).assets.contains(id)
            &&& after.vertiports == s.vertiports
            &&& after.vertipads == s.vertipads
            &&& after.operators == s.operators
        },
{
    let release = |g: AssetGroupView| released(g, id);
    let groups = changed_upto(s.groups, holding(id), release, s.groups.len() as int);
    let g = releases(s.groups, id);
    let last = seq![StoreWriteView::DeleteAircraft(id)];
    assert(aircraft_removal(s, id)->Ok_0 =~= g + last);
    lemma_changes_written::<AssetGroup>(s, holding(id), release, releasing(id), s.groups.len() as int);
    assert(s.groups.take(s.groups.len() as int) =~= s.groups);
    let s1 = SnapshotView { groups: groups, ..s };
    lemma_written_in_a_row(s, g, last);
    lemma_written_few(s1, StoreWriteView::DeleteAircraft(id), StoreWriteView::DeleteAircraft(id));
    lemma_deleted_is_gone::<Aircraft>(s.aircraft, id);
    assert forall|i: int| 0 <= i < groups.len() implies !(#[trigger] groups[i]).assets.contains(
        id,
    ) by {
        lemma_taken_out_is_out(s.groups[i].assets, id);
    }
}

/// Once the writes of a successful removal of a group are made on the
/// records they were planned for, they have all succeeded, the group is gone
/// and neither an aircraft nor a vertiport refers to it.
pub proof fn lemma_group_removal_clears_references(s: SnapshotView, id: Identifier)
    requires
        well_keyed(s),
        group_removal(s, id) is Ok,
    ensures
        written_all(s, group_removal(s, id)->Ok_0) matches Ok(after) && {
            &&& !holds::<AssetGroup>(after.groups, id)
            &&& forall|i: int|
                0 <= i < after.aircraft.len() ==> (#[trigger] after.aircraft[i]).basics.group_id
                    != Some(id)
            &&& forall|i: int|
                0 <= i < after.vertiports.len() ==> (
                #[trigger] after.vertiports[i]).basics.group_id != Some(id)
            &&& after.vertiports.len() == s.vertiports.len()
            &&& forall|i: int|
                0 <= i < after.vertiports.len() ==> (#[trigger] after.vertiports[i]).basics.id
                    == s.vertiports[i].basics.id && after.vertiports[i].vertipads
                    == s.vertiports[i].vertipads
            &&& after.vertipads == s.vertipads
            &&& after.operators == s.operators
        },
{
    let clear_a = |a: AircraftView| AircraftView { basics: ungrouped(a.basics), ..a };
    let clear_v = |v: VertiportView| VertiportView { basics: ungrouped(v.basics), ..v };
    let aircraft = changed_upto(s.aircraft, aircraft_of(id), clear_a, s.aircraft.len() as int);
    let ports = changed_upto(s.vertiports, vertiports_of(id), clear_v, s.vertiports.len() as int);
    let wa = s.aircraft.filter(aircraft_of(id)).map_values(ungrouping_aircraft());
    let wv = s.vertiports.filter(vertiports_of(id)).map_values(ungrouping_vertiport());
    let last = seq![StoreWriteView::DeleteAssetGroup(id)];
    assert(group_removal(s, id)->Ok_0 =~= (wa + wv) + last);
    lemma_changes_written::<Aircraft>(
        s,
        aircraft_of(id),
        clear_a,
        ungrouping_aircraft(),
        s.aircraft.len() as int,
    );
    assert(s.aircraft.take(s.aircraft.len() as int) =~= s.aircraft);
    let s1 = SnapshotView { aircraft: aircraft, ..s };
    lemma_changes_written::<Vertiport>(
        s1,
        vertiports_of(id),
        clear_v,
        ungrouping_vertiport(),
        s.vertiports.len() as int,
    );
    assert(s.vertiports.take(s.vertiports.len() as int) =~= s.vertiports);
    let s2 = SnapshotView { vertiports: ports, ..s1 };
    lemma_written_in_a_row(s, wa, wv);
    lemma_written_in_a_row(s, wa + wv, last);
    lemma_written_few(
        s2,
        StoreWriteView::DeleteAssetGroup(id),
        StoreWriteView::DeleteAssetGroup(id),
    );
    lemma_deleted_is_gone::<AssetGroup>(s.groups, id);
}

/// Once the writes of a successful registration of a vertipad are made on
/// the records they were planned for, under an identifier that no vertipad
/// has yet, they have both succeeded, the pad is stored, and the vertiport
/// that the pad names exists and lists the pad.
pub proof fn lemma_vertipad_registration_links(
    s: SnapshotView,
    p: RegisterVertipadPayload,
    id: Identifier,
)
    requires
        well_keyed(s),
        !holds::<Vertipad>(s.vertipads, id),
        vertipad_registration(s, p, id) is Ok,
    ensures
        written_all(s, vertipad_registration(s, p, id)->Ok_0) matches Ok(after) && {
            &&& after.vertipads.len() == s.vertipads.len() + 1
            &&& after.vertipads.last().id == id
            &&& after.vertipads.last().vertiport_id matches Some(port)
            &&& found::<Vertiport>(after.vertiports, port) matches Ok(host)
            &&& host.vertipads.contains(id)
        },
{
    let ws = vertipad_registration(s, p, id)->Ok_0;
    lemma_written_few(s, ws[0], ws[1]);
    assert(ws =~= seq![ws[0], ws[1]]);
    let host = checked_vertipad_host(s, p)->Ok_0;
    let port = required_identifier(p.vertiport_id@)->Ok_0;
    let k = choose|k: int|
        0 <= k < s.vertiports.len() && Vertiport::key_of(#[trigger] s.vertiports[k]) == port;
    lemma_first_exists::<Vertiport>(s.vertiports, port, k);
    assert(host.basics.id == port);
    let at = place::<Vertiport>(s.vertiports, port);
    let ports = s.vertiports.update(at, hosting(host, id));
    assert(is_first::<Vertiport>(ports, port, at)) by {
        assert forall|j: int| 0 <= j < at implies Vertiport::key_of(#[trigger] ports[j])
            != port by {
            assert(ports[j] == s.vertiports[j]);
        }
    }
    assert(Vertiport::key_of(ports[at]) == port);
    lemma_first_is_unique::<Vertiport>(ports, port, at, place::<Vertiport>(ports, port));
    let members = host.vertipads;
    if members.contains(id) {
    } else {
        assert(members.push(id)[members.len() as int] == id);
    }
}

/// Once the writes of a successful removal of a vertipad are made on the
/// records they were planned for, they have all succeeded, the pad is gone,
/// and the vertiport that hosted it, where the snapshot holds it, no longer
/// lists the pad.
pub proof fn lemma_vertipad_removal_unlinks(s: SnapshotView, id: Identifier)
    requires
        well_keyed(s),
        vertipad_removal(s, id) is Ok,
    ensures
        written_all(s, vertipad_removal(s, id)->Ok_0) matches Ok(after) && {
            &&& !holds::<Vertipad>(after.vertipads, id)
            &&& forall|port: Identifier|
                found::<Vertipad>(s.vertipads, id)->Ok_0.vertiport_id == Some(port) ==> (
                #[trigger] found::<Vertiport>(after.vertiports, port) matches Ok(host)
                    ==> !host.vertipads.contains(id))
            &&& after.aircraft == s.aircraft
            &&& after.groups == s.groups
            &&& after.operators == s.operators
        },
{
    let pad = found::<Vertipad>(s.vertipads, id)->Ok_0;
    let first = unlinking(s, pad.vertiport_id, id);
    let last = seq![StoreWriteView::DeleteVertipad(id)];
    assert(vertipad_removal(s, id)->Ok_0 =~= first + last);
    lemma_written_in_a_row(s, first, last);
    lemma_deleted_is_gone::<Vertipad>(s.vertipads, id);
    if first.len() == 0 {
        lemma_written_few(s, last[0], last[0]);
        assert forall|port: Identifier| pad.vertiport_id == Some(port) implies (
        #[trigger] found::<Vertiport>(s.vertiports, port) matches Ok(host)
            ==> !host.vertipads.contains(id)) by {
        }
    } else {
        let port = pad.vertiport_id->0;
        let host = found::<Vertiport>(s.vertiports, port)->Ok_0;
        let k = choose|k: int|
            0 <= k < s.vertiports.len() && Vertiport::key_of(#[trigger] s.vertiports[k]) == port;
        lemma_first_exists::<Vertiport>(s.vertiports, port, k);
        let at = place::<Vertiport>(s.vertiports, port);
        let ports = s.vertiports.update(at, unhosting(host, id));
        assert(first =~= seq![first[0]]);
        lemma_written_few(s, first[0], first[0]);
        let s1 = SnapshotView { vertiports: ports, ..s };
        assert(written_all(s, first) == Ok::<SnapshotView, StoreError>(s1));
        lemma_written_few(s1, last[0], last[0]);
        assert(is_first::<Vertiport>(ports, port, at)) by {
            assert forall|j: int| 0 <= j < at implies Vertiport::key_of(#[trigger] ports[j])
                != port by {
                assert(ports[j] == s.vertiports[j]);
            }
        }
        assert(Vertiport::key_of(ports[at]) == port);
        lemma_first_is_unique::<Vertiport>(ports, port, at, place::<Vertiport>(ports, port));
        lemma_taken_out_is_out(host.vertipads, id);
    }
}

/// An insert that succeeds on records with different identifiers leaves
/// records with different identifiers.
pub proof fn lemma_insert_keeps_keys_apart<T: Record>(records: Seq<T::V>, r: T::V)
    requires
        unique_keys::<T>(records),
    ensures
        inserted::<T>(records, r) matches Ok(after) ==> unique_keys::<T>(after),
{
    if inserted::<T>(records, r) is Ok {
        let after = records.push(r);
        assert forall|i: int, j: int| 0 <= i < j < after.len() implies T::key_of(
            #[trigger] after[i],
        ) != T::key_of(#[trigger] after[j]) by {
            if j == records.len() {
                assert(after[i] == records[i]);
            } else {
                assert(after[i] == records[i] && after[j] == records[j]);
            }
        }
    }
}

/// An update that succeeds on records with different identifiers leaves
/// records with different identifiers.
pub proof fn lemma_update_keeps_keys_apart<T: Record>(records: Seq<T::V>, r: T::V)
    requires
        unique_keys::<T>(records),
    ensures
        replaced::<T>(records, r) matches Ok(after) ==> unique_keys::<T>(after),
{
    if replaced::<T>(records, r) is Ok {
        let key = T::key_of(r);
        let k = choose|k: int| 0 <= k < records.len() && T::key_of(#[trigger] records[k]) == key;
        lemma_first_exists::<T>(records, key, k);
        let at = place::<T>(records, key);
        let after = records.update(at, r);
        assert forall|i: int, j: int| 0 <= i < j < after.len() implies T::key_of(
            #[trigger] after[i],
        ) != T::key_of(#[trigger] after[j]) by {
            assert(T::key_of(after[i]) == T::key_of(records[i]));
            assert(T::key_of(after[j]) == T::key_of(records[j]));
        }
    }
}

/// A delete that succeeds on records with different identifiers leaves
/// records with different identifiers.
pub proof fn lemma_delete_keeps_keys_apart<T: Record>(records: Seq<T::V>, id: Identifier)
    requires
        unique_keys::<T>(records),
    ensures
        deleted::<T>(records, id) matches Ok(after) ==> unique_keys::<T>(after),
{
    if deleted::<T>(records, id) is Ok {
        let k = choose|k: int| 0 <= k < records.len() && T::key_of(#[trigger] records[k]) == id;
        lemma_first_exists::<T>(records, id, k);
        let at = place::<T>(records, id);
        let after = records.remove(at);
        assert forall|i: int, j: int| 0 <= i < j < after.len() implies T::key_of(
            #[trigger] after[i],
        ) != T::key_of(#[trigger] after[j]) by {
            let a = if i < at {
                i
            } else {
                i + 1
            };
            let b = if j < at {
                j
            } else {
                j + 1
            };
            assert(after[i] == records[a] && after[j] == records[b]);
        }
    }
}

/// Whatever is written, one write after the other: where no two records
/// of a kind shared an identifier before, none do afterwards.
pub proof fn lemma_writes_keep_well_keyed(s: SnapshotView, ws: Seq<StoreWriteView>)
    requires
        well_keyed(s),
    ensures
        written_all(s, ws) matches Ok(after) ==> well_keyed(after),
    decreases ws.len(),
{
    if ws.len() > 0 {
        lemma_writes_keep_well_keyed(s, ws.drop_last());
        if written_all(s, ws.drop_last()) is Ok {
            let before = written_all(s, ws.drop_last())->Ok_0;
            match ws.last() {
                StoreWriteView::InsertAircraft(r) => {
                    lemma_insert_keeps_keys_apart::<Aircraft>(before.aircraft, r);
                },
                StoreWriteView::UpdateAircraft(r) => {
                    lemma_update_keeps_keys_apart::<Aircraft>(before.aircraft, r);
                },
                StoreWriteView::DeleteAircraft(id) => {
                    lemma_delete_keeps_keys_apart::<Aircraft>(before.aircraft, id);
                },
                StoreWriteView::InsertVertiport(r) => {
                    lemma_insert_keeps_keys_apart::<Vertiport>(before.vertiports, r);
                },
                StoreWriteView::UpdateVertiport(r) => {
                    lemma_update_keeps_keys_apart::<Vertiport>(before.vertiports, r);
                },
                StoreWriteView::DeleteVertiport(id) => {
                    lemma_delete_keeps_keys_apart::<Vertiport>(before.vertiports, id);
                },
                StoreWriteView::InsertVertipad(r) => {
                    lemma_insert_keeps_keys_apart::<Vertipad>(before.vertipads, r);
                },
                StoreWriteView::UpdateVertipad(r) => {
                    lemma_update_keeps_keys_apart::<Vertipad>(before.vertipads, r);
                },
                StoreWriteView::DeleteVertipad(id) => {
                    lemma_delete_keeps_keys_apart::<Vertipad>(before.vertipads, id);
                },
                StoreWriteView::InsertAssetGroup(r) => {
                    lemma_insert_keeps_keys_apart::<AssetGroup>(before.groups, r);
                },
                StoreWriteView::UpdateAssetGroup(r) => {
                    lemma_update_keeps_keys_apart::<AssetGroup>(before.groups, r);
                },
                StoreWriteView::DeleteAssetGroup(id) => {
                    lemma_delete_keeps_keys_apart::<AssetGroup>(before.groups, id);
                },
            }
        }
    }
}

} // verus!
