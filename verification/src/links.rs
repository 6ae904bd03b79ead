//! The two-way link between vertipads and vertiports: a pad names the
//! vertiport that hosts it, and the vertiport lists the pad. The registry
//! operations that touch either side keep the two in step.

use crate::amend::{unhosting, unlinking, vertipad_update_plan, vertiport_update_plan};
use crate::entity::{Timestamp, Vertipad, Vertiport};
use crate::error::{RegistryError, StoreError};
use crate::group::{other_than, with_member, without_member};
use crate::identifier::Identifier;
use crate::integrity::{
    lemma_first_exists, lemma_group_removal_clears_references,
    lemma_vertiport_removal_leaves_no_orphan, lemma_written_few, lemma_written_in_a_row,
    well_keyed,
};
use crate::registration::{
    checked_vertipad_host, hosting, new_vertipad, required_identifier, vertipad_registration,
};
use crate::removal::{group_removal, vertipad_removal, vertiport_removal, RemovalPolicy};
use crate::snapshot::{found, holds, is_first, Record, SnapshotView};
use crate::store::{lemma_first_is_unique, place, unique_keys, written_all, StoreWriteView};
use crate::types::RegisterVertipadPayload;
use crate::update::{
    updated_vertipad, updated_vertiport, VertipadUpdateView, VertiportUpdateView,
};
use vstd::prelude::*;

verus! {

/// Whether a vertipad stored under `pad` names `port` as its vertiport.
pub open spec fn names(s: SnapshotView, pad: Identifier, port: Identifier) -> bool {
    exists|i: int|
        0 <= i < s.vertipads.len() && (#[trigger] s.vertipads[i]).id == pad
            && s.vertipads[i].vertiport_id == Some(port)
}

/// Whether a vertiport stored under `port` lists `pad` among its vertipads.
pub open spec fn lists(s: SnapshotView, port: Identifier, pad: Identifier) -> bool {
    exists|j: int|
        0 <= j < s.vertiports.len() && (#[trigger] s.vertiports[j]).basics.id == port
            && s.vertiports[j].vertipads.contains(pad)
}

/// Whether the links between vertipads and vertiports are in step: a pad
/// names a vertiport if and only if that vertiport lists the pad. Then every
/// pad with a vertiport refers to one that exists, and every listed pad
/// exists.
pub open spec fn linked(s: SnapshotView) -> bool {
    forall|pad: Identifier, port: Identifier|
        #![trigger names(s, pad, port)]
        #![trigger lists(s, port, pad)]
        names(s, pad, port) <==> lists(s, port, pad)
}

/// The place of a record that is stored under an identifier holds the
/// record that a lookup finds.
pub proof fn lemma_found_at<T: Record>(records: Seq<T::V>, id: Identifier)
    requires
        holds::<T>(records, id),
    ensures
        is_first::<T>(records, id, place::<T>(records, id)),
        found::<T>(records, id) == Ok::<T::V, RegistryError>(
            records[place::<T>(records, id)],
        ),
{
    let k = choose|k: int| 0 <= k < records.len() && T::key_of(#[trigger] records[k]) == id;
    lemma_first_exists::<T>(records, id, k);
}

/// Where no two records share an identifier, a record under an identifier
/// stands in the place of that identifier.
pub proof fn lemma_only_place<T: Record>(records: Seq<T::V>, id: Identifier, i: int)
    requires
        unique_keys::<T>(records),
        0 <= i < records.len(),
        T::key_of(records[i]) == id,
    ensures
        place::<T>(records, id) == i,
{
    lemma_first_exists::<T>(records, id, i);
    let at = place::<T>(records, id);
    if at < i {
        assert(T::key_of(records[at]) != T::key_of(records[i]));
    }
    if i < at {
        assert(T::key_of(records[i]) != id);
    }
}

/// An update in the place of a record that keeps the identifier leaves the
/// place of every identifier where it was.
pub proof fn lemma_place_after_update<T: Record>(records: Seq<T::V>, at: int, r: T::V, id: Identifier)
    requires
        0 <= at < records.len(),
        T::key_of(r) == T::key_of(records[at]),
        holds::<T>(records, id),
    ensures
        holds::<T>(records.update(at, r), id),
        place::<T>(records.update(at, r), id) == place::<T>(records, id),
{
    lemma_found_at::<T>(records, id);
    let was = place::<T>(records, id);
    let after = records.update(at, r);
    assert(T::key_of(after[was]) == id);
    assert(is_first::<T>(after, id, was)) by {
        assert forall|j: int| 0 <= j < was implies T::key_of(#[trigger] after[j]) != id by {
            assert(T::key_of(after[j]) == T::key_of(records[j]));
        }
    }
    lemma_found_at::<T>(after, id);
    lemma_first_is_unique::<T>(after, id, was, place::<T>(after, id));
}

/// What is in a list without a member was in the list and is not that
/// member, and the other way round.
pub proof fn lemma_without_member(members: Seq<Identifier>, id: Identifier, m: Identifier)
    ensures
        without_member(members, id).contains(m) <==> members.contains(m) && m != id,
{
    let rest = without_member(members, id);
    if rest.contains(m) {
        let k = choose|k: int| 0 <= k < rest.len() && rest[k] == m;
        members.lemma_filter_pred(other_than(id), k);
        members.lemma_filter_contains_rev(other_than(id), m);
    }
    if members.contains(m) && m != id {
        let k = choose|k: int| 0 <= k < members.len() && members[k] == m;
        members.lemma_filter_contains(other_than(id), k);
    }
}

/// What is in a list with a member was in the list or is that member.
pub proof fn lemma_with_member(members: Seq<Identifier>, id: Identifier, m: Identifier)
    ensures
        with_member(members, id).contains(m) <==> members.contains(m) || m == id,
{
    let more = with_member(members, id);
    if members.contains(id) {
    } else {
        assert(more[members.len() as int] == id);
        if more.contains(m) {
            let k = choose|k: int| 0 <= k < more.len() && more[k] == m;
            if k < members.len() {
                assert(members[k] == m);
            }
        }
        if members.contains(m) {
            let k = choose|k: int| 0 <= k < members.len() && members[k] == m;
            assert(more[k] == m);
        }
    }
}

/// The registration of a vertipad keeps the links in step: once its writes
/// are made on the records they were planned for, under an identifier that
/// no vertipad has yet, both have succeeded and the links are in step again.
pub proof fn lemma_registration_keeps_linked(s: SnapshotView, p: RegisterVertipadPayload, id: Identifier)
    requires
        linked(s),
        !holds::<Vertipad>(s.vertipads, id),
        vertipad_registration(s, p, id) is Ok,
    ensures
        written_all(s, vertipad_registration(s, p, id)->Ok_0) matches Ok(after) && linked(after),
{
    let ws = vertipad_registration(s, p, id)->Ok_0;
    let host = checked_vertipad_host(s, p)->Ok_0;
    let port = required_identifier(p.vertiport_id@)->Ok_0;
    lemma_found_at::<Vertiport>(s.vertiports, port);
    let at = place::<Vertiport>(s.vertiports, port);
    assert(host == s.vertiports[at]);
    assert(host.basics.id == port);
    let pad = new_vertipad(p, port, id);
    let pads = s.vertipads.push(pad);
    let ports = s.vertiports.update(at, hosting(host, id));
    let after = SnapshotView { vertipads: pads, vertiports: ports, ..s };
    assert(ws =~= seq![ws[0], ws[1]]);
    lemma_written_few(s, ws[0], ws[1]);
    assert(written_all(s, ws) == Ok::<SnapshotView, StoreError>(after));

    assert forall|a: Identifier, b: Identifier| names(after, a, b) <==> lists(after, b, a) by {
        lemma_with_member(host.vertipads, id, a);
        if names(after, a, b) {
            let i = choose|i: int|
                0 <= i < pads.len() && (#[trigger] pads[i]).id == a && pads[i].vertiport_id
                    == Some(b);
            if i == s.vertipads.len() {
                assert(ports[at].basics.id == b && ports[at].vertipads.contains(a));
            } else {
                assert(s.vertipads[i].id == a && s.vertipads[i].vertiport_id == Some(b));
                assert(names(s, a, b));
                assert(lists(s, b, a));
                let j = choose|j: int|
                    0 <= j < s.vertiports.len() && (#[trigger] s.vertiports[j]).basics.id == b
                        && s.vertiports[j].vertipads.contains(a);
                assert(ports[j].basics.id == b && ports[j].vertipads.contains(a));
            }
        }
        if lists(after, b, a) {
            let j = choose|j: int|
                0 <= j < ports.len() && (#[trigger] ports[j]).basics.id == b
                    && ports[j].vertipads.contains(a);
            if j == at && !host.vertipads.contains(a) {
                assert(pads[s.vertipads.len() as int].id == a);
            } else {
                assert(s.vertiports[j].basics.id == b && s.vertiports[j].vertipads.contains(a));
                assert(lists(s, b, a));
                assert(names(s, a, b));
                let i = choose|i: int|
                    0 <= i < s.vertipads.len() && (#[trigger] s.vertipads[i]).id == a
                        && s.vertipads[i].vertiport_id == Some(b);
                assert(pads[i].id == a && pads[i].vertiport_id == Some(b));
            }
        }
    }
}

/// The removal of a vertipad keeps the links in step.
pub proof fn lemma_vertipad_removal_keeps_linked(s: SnapshotView, id: Identifier)
    requires
        well_keyed(s),
        linked(s),
        vertipad_removal(s, id) is Ok,
    ensures
        written_all(s, vertipad_removal(s, id)->Ok_0) matches Ok(after) && linked(after),
{
    let pad = found::<Vertipad>(s.vertipads, id)->Ok_0;
    lemma_found_at::<Vertipad>(s.vertipads, id);
    let ip = place::<Vertipad>(s.vertipads, id);
    assert(pad == s.vertipads[ip]);
    let first = unlinking(s, pad.vertiport_id, id);
    let last = seq![StoreWriteView::DeleteVertipad(id)];
    assert(vertipad_removal(s, id)->Ok_0 =~= first + last);
    lemma_written_in_a_row(s, first, last);
    let pads = s.vertipads.remove(ip);
    match pad.vertiport_id {
        Some(port) => {
            assert(names(s, id, port));
            assert(lists(s, port, id));
            lemma_found_at::<Vertiport>(s.vertiports, port);
            let at = place::<Vertiport>(s.vertiports, port);
            let host = s.vertiports[at];
            let ports = s.vertiports.update(at, unhosting(host, id));
            assert(first =~= seq![first[0]]);
            lemma_written_few(s, first[0], first[0]);
            let s1 = SnapshotView { vertiports: ports, ..s };
            assert(written_all(s, first) == Ok::<SnapshotView, StoreError>(s1));
            lemma_written_few(s1, last[0], last[0]);
            let after = SnapshotView { vertipads: pads, ..s1 };
            assert(written_all(s, first + last) == Ok::<SnapshotView, StoreError>(after));
            assert forall|a: Identifier, b: Identifier| names(after, a, b) <==> lists(
                after,
                b,
                a,
            ) by {
                lemma_without_member(host.vertipads, id, a);
                if names(after, a, b) {
                    let i = choose|i: int|
                        0 <= i < pads.len() && (#[trigger] pads[i]).id == a
                            && pads[i].vertiport_id == Some(b);
                    let o = if i < ip {
                        i
                    } else {
                        i + 1
                    };
                    assert(pads[i] == s.vertipads[o]);
                    assert(a != id) by {
                        if o < ip {
                            assert(Vertipad::key_of(s.vertipads[o]) != Vertipad::key_of(
                                s.vertipads[ip],
                            ));
                        } else {
                            assert(Vertipad::key_of(s.vertipads[ip]) != Vertipad::key_of(
                                s.vertipads[o],
                            ));
                        }
                    }
                    assert(names(s, a, b));
                    assert(lists(s, b, a));
                    let j = choose|j: int|
                        0 <= j < s.vertiports.len() && (#[trigger] s.vertiports[j]).basics.id
                            == b && s.vertiports[j].vertipads.contains(a);
                    if j == at {
                        assert(ports[j].basics.id == b && ports[j].vertipads.contains(a));
                    } else {
                        assert(ports[j] == s.vertiports[j]);
                    }
                }
                if lists(after, b, a) {
                    let j = choose|j: int|
                        0 <= j < ports.len() && (#[trigger] ports[j]).basics.id == b
                            && ports[j].vertipads.contains(a);
                    assert(s.vertiports[j].basics.id == b && s.vertiports[j].vertipads.contains(
                        a,
                    ));
                    assert(lists(s, b, a));
                    assert(names(s, a, b));
                    let i = choose|i: int|
                        0 <= i < s.vertipads.len() && (#[trigger] s.vertipads[i]).id == a
                            && s.vertipads[i].vertiport_id == Some(b);
                    if i == ip {
                        // the pad that goes: its vertiport is the one that was updated
                        assert(b == port);
                        lemma_only_place::<Vertiport>(s.vertiports, port, j);
                        assert(false);
                    }
                    let n = if i < ip {
                        i
                    } else {
                        i - 1
                    };
                    assert(pads[n] == s.vertipads[i]);
                }
            }
        },
        None => {
            assert(first =~= Seq::<StoreWriteView>::empty());
            lemma_written_few(s, last[0], last[0]);
            let after = SnapshotView { vertipads: pads, ..s };
            assert(written_all(s, first + last) == Ok::<SnapshotView, StoreError>(after));
            assert forall|a: Identifier, b: Identifier| names(after, a, b) <==> lists(
                after,
                b,
                a,
            ) by {
                if names(after, a, b) {
                    let i = choose|i: int|
                        0 <= i < pads.len() && (#[trigger] pads[i]).id == a
                            && pads[i].vertiport_id == Some(b);
                    let o = if i < ip {
                        i
                    } else {
                        i + 1
                    };
                    assert(pads[i] == s.vertipads[o]);
                    assert(names(s, a, b));
                }
                if lists(after, b, a) {
                    assert(lists(s, b, a));
                    assert(names(s, a, b));
                    let i = choose|i: int|
                        0 <= i < s.vertipads.len() && (#[trigger] s.vertipads[i]).id == a
                            && s.vertipads[i].vertiport_id == Some(b);
                    let n = if i < ip {
                        i
                    } else {
                        i - 1
                    };
                    assert(pads[n] == s.vertipads[i]);
                }
            }
        },
    }
}

/// The removal of a vertiport keeps the links in step, whether its
/// vertipads were detached or there were none.
pub proof fn lemma_vertiport_removal_keeps_linked(s: SnapshotView, id: Identifier, policy: RemovalPolicy)
    requires
        well_keyed(s),
        linked(s),
        vertiport_removal(s, id, policy) is Ok,
    ensures
        written_all(s, vertiport_removal(s, id, policy)->Ok_0) matches Ok(after) && linked(after),
{
    lemma_vertiport_removal_leaves_no_orphan(s, id, policy);
    let after = written_all(s, vertiport_removal(s, id, policy)->Ok_0)->Ok_0;
    lemma_found_at::<Vertiport>(s.vertiports, id);
    let at = place::<Vertiport>(s.vertiports, id);
    let pads = after.vertipads;
    let ports = after.vertiports;
    assert forall|a: Identifier, b: Identifier| names(after, a, b) <==> lists(after, b, a) by {
        if names(after, a, b) {
            let i = choose|i: int|
                0 <= i < pads.len() && (#[trigger] pads[i]).id == a && pads[i].vertiport_id
                    == Some(b);
            assert(pads[i] == s.vertipads[i]);
            assert(b != id);
            assert(names(s, a, b));
            assert(lists(s, b, a));
            let j = choose|j: int|
                0 <= j < s.vertiports.len() && (#[trigger] s.vertiports[j]).basics.id == b
                    && s.vertiports[j].vertipads.contains(a);
            let n = if j < at {
                j
            } else {
                j - 1
            };
            assert(ports[n] == s.vertiports[j]);
        }
        if lists(after, b, a) {
            let j = choose|j: int|
                0 <= j < ports.len() && (#[trigger] ports[j]).basics.id == b
                    && ports[j].vertipads.contains(a);
            let o = if j < at {
                j
            } else {
                j + 1
            };
            assert(ports[j] == s.vertiports[o]);
            assert(b != id) by {
                if o < at {
                    assert(Vertiport::key_of(s.vertiports[o]) != Vertiport::key_of(
                        s.vertiports[at],
                    ));
                } else {
                    assert(Vertiport::key_of(s.vertiports[at]) != Vertiport::key_of(
                        s.vertiports[o],
                    ));
                }
            }
            assert(lists(s, b, a));
            assert(names(s, a, b));
            let i = choose|i: int|
                0 <= i < s.vertipads.len() && (#[trigger] s.vertipads[i]).id == a
                    && s.vertipads[i].vertiport_id == Some(b);
            assert(pads[i] == s.vertipads[i]);
        }
    }
}

/// An update of a vertipad keeps the links in step, whether it leaves the
/// pad at its vertiport or moves it to another.
pub proof fn lemma_vertipad_update_keeps_linked(s: SnapshotView, u: VertipadUpdateView)
    requires
        well_keyed(s),
        linked(s),
        vertipad_update_plan(s, u) is Ok,
    ensures
        written_all(s, vertipad_update_plan(s, u)->Ok_0) matches Ok(after) && linked(after),
{
    let id = u.id;
    let plan = vertipad_update_plan(s, u)->Ok_0;
    let pad = found::<Vertipad>(s.vertipads, id)->Ok_0;
    lemma_found_at::<Vertipad>(s.vertipads, id);
    let ip = place::<Vertipad>(s.vertipads, id);
    assert(pad == s.vertipads[ip]);
    let moved = updated_vertipad(pad, u);
    let pads = s.vertipads.update(ip, moved);
    let s0 = SnapshotView { vertipads: pads, ..s };
    if moved.vertiport_id == pad.vertiport_id {
        assert(plan =~= seq![plan[0]]);
        lemma_written_few(s, plan[0], plan[0]);
        assert(written_all(s, plan) == Ok::<SnapshotView, StoreError>(s0));
        assert forall|a: Identifier, b: Identifier| names(s0, a, b) <==> lists(s0, b, a) by {
            if names(s0, a, b) {
                let i = choose|i: int|
                    0 <= i < pads.len() && (#[trigger] pads[i]).id == a && pads[i].vertiport_id
                        == Some(b);
                assert(s.vertipads[i].id == a && s.vertipads[i].vertiport_id == Some(b));
                assert(names(s, a, b));
            }
            if lists(s0, b, a) {
                assert(lists(s, b, a));
                assert(names(s, a, b));
                let i = choose|i: int|
                    0 <= i < s.vertipads.len() && (#[trigger] s.vertipads[i]).id == a
                        && s.vertipads[i].vertiport_id == Some(b);
                assert(pads[i].id == a && pads[i].vertiport_id == Some(b));
            }
        }
    } else {
        let to = moved.vertiport_id->0;
        lemma_found_at::<Vertiport>(s.vertiports, to);
        let an = place::<Vertiport>(s.vertiports, to);
        let host = s.vertiports[an];
        let linked_ports = s.vertiports.update(an, hosting(host, id));
        let s1 = SnapshotView { vertiports: linked_ports, ..s0 };
        let first = seq![plan[0], plan[1]];
        let rest = unlinking(s, pad.vertiport_id, id);
        assert(plan =~= first + rest);
        lemma_written_few(s, plan[0], plan[1]);
        assert(written_all(s, first) == Ok::<SnapshotView, StoreError>(s1));
        lemma_written_in_a_row(s, first, rest);
        match pad.vertiport_id {
            Some(from) => {
                assert(names(s, id, from));
                assert(lists(s, from, id));
                lemma_found_at::<Vertiport>(s.vertiports, from);
                let ao = place::<Vertiport>(s.vertiports, from);
                let prev = s.vertiports[ao];
                assert(ao != an);
                lemma_place_after_update::<Vertiport>(s.vertiports, an, hosting(host, id), from);
                let ports = linked_ports.update(ao, unhosting(prev, id));
                let after = SnapshotView { vertiports: ports, ..s1 };
                assert(rest =~= seq![rest[0]]);
                lemma_written_few(s1, rest[0], rest[0]);
                assert(written_all(s, plan) == Ok::<SnapshotView, StoreError>(after));
                assert forall|a: Identifier, b: Identifier| names(after, a, b) <==> lists(
                    after,
                    b,
                    a,
                ) by {
                    lemma_with_member(host.vertipads, id, a);
                    lemma_without_member(prev.vertipads, id, a);
                    if names(after, a, b) {
                        let i = choose|i: int|
                            0 <= i < pads.len() && (#[trigger] pads[i]).id == a
                                && pads[i].vertiport_id == Some(b);
                        if i == ip {
                            assert(ports[an].basics.id == b && ports[an].vertipads.contains(a));
                        } else {
                            assert(pads[i] == s.vertipads[i]);
                            assert(a != id) by {
                                if i < ip {
                                    assert(Vertipad::key_of(s.vertipads[i]) != Vertipad::key_of(
                                        s.vertipads[ip],
                                    ));
                                } else {
                                    assert(Vertipad::key_of(s.vertipads[ip]) != Vertipad::key_of(
                                        s.vertipads[i],
                                    ));
                                }
                            }
                            assert(names(s, a, b));
                            assert(lists(s, b, a));
                            let j = choose|j: int|
                                0 <= j < s.vertiports.len() && (
                                #[trigger] s.vertiports[j]).basics.id == b
                                    && s.vertiports[j].vertipads.contains(a);
                            assert(ports[j].basics.id == b && ports[j].vertipads.contains(a));
                        }
                    }
                    if lists(after, b, a) {
                        let j = choose|j: int|
                            0 <= j < ports.len() && (#[trigger] ports[j]).basics.id == b
                                && ports[j].vertipads.contains(a);
                        if j == an && a == id {
                            assert(pads[ip].id == a && pads[ip].vertiport_id == Some(b));
                        } else {
                            assert(s.vertiports[j].basics.id == b
                                && s.vertiports[j].vertipads.contains(a));
                            assert(lists(s, b, a));
                            assert(names(s, a, b));
                            let i = choose|i: int|
                                0 <= i < s.vertipads.len() && (#[trigger] s.vertipads[i]).id
                                    == a && s.vertipads[i].vertiport_id == Some(b);
                            if i == ip {
                                assert(b == from);
                                lemma_only_place::<Vertiport>(s.vertiports, from, j);
                                assert(false);
                            }
                            assert(pads[i] == s.vertipads[i]);
                        }
                    }
                }
            },
            None => {
                assert(rest =~= Seq::<StoreWriteView>::empty());
                assert(first + rest =~= first);
                assert forall|a: Identifier, b: Identifier| names(s1, a, b) <==> lists(
                    s1,
                    b,
                    a,
                ) by {
                    lemma_with_member(host.vertipads, id, a);
                    if names(s1, a, b) {
                        let i = choose|i: int|
                            0 <= i < pads.len() && (#[trigger] pads[i]).id == a
                                && pads[i].vertiport_id == Some(b);
                        if i == ip {
                            assert(linked_ports[an].basics.id == b
                                && linked_ports[an].vertipads.contains(a));
                        } else {
                            assert(pads[i] == s.vertipads[i]);
                            assert(names(s, a, b));
                            assert(lists(s, b, a));
                            let j = choose|j: int|
                                0 <= j < s.vertiports.len() && (
                                #[trigger] s.vertiports[j]).basics.id == b
                                    && s.vertiports[j].vertipads.contains(a);
                            assert(linked_ports[j].basics.id == b
                                && linked_ports[j].vertipads.contains(a));
                        }
                    }
                    if lists(s1, b, a) {
                        let j = choose|j: int|
                            0 <= j < linked_ports.len() && (#[trigger] linked_ports[j]).basics.id
                                == b && linked_ports[j].vertipads.contains(a);
                        if j == an && a == id {
                            assert(pads[ip].id == a && pads[ip].vertiport_id == Some(b));
                        } else {
                            assert(s.vertiports[j].basics.id == b
                                && s.vertiports[j].vertipads.contains(a));
                            assert(lists(s, b, a));
                            assert(names(s, a, b));
                            let i = choose|i: int|
                                0 <= i < s.vertipads.len() && (#[trigger] s.vertipads[i]).id
                                    == a && s.vertipads[i].vertiport_id == Some(b);
                            assert(i != ip);
                            assert(pads[i] == s.vertipads[i]);
                        }
                    }
                }
            },
        }
    }
}

/// Records that name the same vertiports and list the same vertipads are
/// in step with each other if the records they came from were.
pub proof fn lemma_same_links_stay_linked(s: SnapshotView, after: SnapshotView)
    requires
        linked(s),
        after.vertipads.len() == s.vertipads.len(),
        forall|i: int|
            0 <= i < s.vertipads.len() ==> (#[trigger] after.vertipads[i]).id == s.vertipads[i].id
                && after.vertipads[i].vertiport_id == s.vertipads[i].vertiport_id,
        after.vertiports.len() == s.vertiports.len(),
        forall|j: int|
            0 <= j < s.vertiports.len() ==> (#[trigger] after.vertiports[j]).basics.id
                == s.vertiports[j].basics.id && after.vertiports[j].vertipads
                == s.vertiports[j].vertipads,
    ensures
        linked(after),
{
    assert forall|a: Identifier, b: Identifier| names(after, a, b) <==> lists(after, b, a) by {
        if names(after, a, b) {
            let i = choose|i: int|
                0 <= i < after.vertipads.len() && (#[trigger] after.vertipads[i]).id == a
                    && after.vertipads[i].vertiport_id == Some(b);
            assert(s.vertipads[i].id == a && s.vertipads[i].vertiport_id == Some(b));
            assert(names(s, a, b));
            assert(lists(s, b, a));
            let j = choose|j: int|
                0 <= j < s.vertiports.len() && (#[trigger] s.vertiports[j]).basics.id == b
                    && s.vertiports[j].vertipads.contains(a);
            assert(after.vertiports[j].basics.id == b && after.vertiports[j].vertipads.contains(
                a,
            ));
        }
        if lists(after, b, a) {
            let j = choose|j: int|
                0 <= j < after.vertiports.len() && (#[trigger] after.vertiports[j]).basics.id
                    == b && after.vertiports[j].vertipads.contains(a);
            assert(s.vertiports[j].basics.id == b && s.vertiports[j].vertipads.contains(a));
            assert(lists(s, b, a));
            assert(names(s, a, b));
            let i = choose|i: int|
                0 <= i < s.vertipads.len() && (#[trigger] s.vertipads[i]).id == a
                    && s.vertipads[i].vertiport_id == Some(b);
            assert(after.vertipads[i].id == a && after.vertipads[i].vertiport_id == Some(b));
        }
    }
}

/// An update of a vertiport keeps the links in step: it changes neither the
/// identifier of the vertiport nor its list of vertipads.
pub proof fn lemma_vertiport_update_keeps_linked(s: SnapshotView, u: VertiportUpdateView, now: Timestamp)
    requires
        linked(s),
        vertiport_update_plan(s, u, now) is Ok,
    ensures
        written_all(s, vertiport_update_plan(s, u, now)->Ok_0) matches Ok(after) && linked(after),
{
    let plan = vertiport_update_plan(s, u, now)->Ok_0;
    lemma_found_at::<Vertiport>(s.vertiports, u.id);
    let at = place::<Vertiport>(s.vertiports, u.id);
    let ports = s.vertiports.update(at, updated_vertiport(s.vertiports[at], u, now));
    let after = SnapshotView { vertiports: ports, ..s };
    assert(plan =~= seq![plan[0]]);
    lemma_written_few(s, plan[0], plan[0]);
    assert(written_all(s, plan) == Ok::<SnapshotView, StoreError>(after));
    lemma_same_links_stay_linked(s, after);
}

/// The removal of a group keeps the links in step: it changes neither the
/// identifier of a vertiport nor its list of vertipads.
pub proof fn lemma_group_removal_keeps_linked(s: SnapshotView, id: Identifier)
    requires
        well_keyed(s),
        linked(s),
        group_removal(s, id) is Ok,
    ensures
        written_all(s, group_removal(s, id)->Ok_0) matches Ok(after) && linked(after),
{
    lemma_group_removal_clears_references(s, id);
    let after = written_all(s, group_removal(s, id)->Ok_0)->Ok_0;
    lemma_same_links_stay_linked(s, after);
}

} // verus!
