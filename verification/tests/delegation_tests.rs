use svc_assets::delegation::{
    asset_entries, effective_controller, may_use, resolve_operator_assets, stands, AssetEntry,
    AssetKind, AssetRef, Relation, ResolveMode,
};
use svc_assets::entity::{
    Aircraft, AssetGroup, AssetStatus, Basics, GeoPoint, GeoPolygon, Operator, Quantity,
    Timestamp, Vertiport,
};
use svc_assets::error::RegistryError;
use svc_assets::group::{add_members, contains_id, expand_group, remove_member, set_delegatee};
use svc_assets::identifier::Identifier;
use svc_assets::registration::register_aircraft_as;
use svc_assets::snapshot::Snapshot;
use svc_assets::store::StoreWrite;
use svc_assets::types::RegisterAircraftPayload;

fn id(n: u128) -> Identifier {
    Identifier { value: 0x00000000_0000_4000_8000_000000000000u128 + n }
}

fn text(n: u128) -> String {
    id(n).to_canonical_string()
}

fn at(seconds: u64) -> Timestamp {
    Timestamp { seconds, nanos: 0 }
}

const O1: u128 = 0x101;
const O2: u128 = 0x102;
const O3: u128 = 0x103;
const A1: u128 = 0xa1;
const A2: u128 = 0xa2;
const V1: u128 = 0xb1;
const G1: u128 = 0xc1;
const G2: u128 = 0xc2;

fn operator(n: u128) -> Operator {
    Operator { id: id(n), name: "operator".to_string() }
}

fn basics(n: u128, owner: u128) -> Basics {
    Basics {
        id: id(n),
        name: None,
        group_id: None,
        owner: id(owner),
        whitelist: Vec::new(),
        created_at: at(1),
        updated_at: None,
        status: AssetStatus::Available,
        schedule: None,
    }
}

fn aircraft(n: u128, owner: u128) -> Aircraft {
    Aircraft {
        basics: basics(n, owner),
        vehicle_model_id: id(0x50),
        manufacturer: "Maker".to_string(),
        serial_number: "SN".to_string(),
        registration_number: "N1".to_string(),
        description: None,
        max_payload_kg: Quantity { bits: 0 },
        max_range_km: Quantity { bits: 0 },
        last_maintenance: None,
        next_maintenance: None,
        last_vertiport_id: None,
    }
}

fn vertiport(n: u128, owner: u128) -> Vertiport {
    Vertiport {
        basics: basics(n, owner),
        geo_location: GeoPolygon {
            exterior: vec![GeoPoint {
                latitude: Quantity { bits: 1 },
                longitude: Quantity { bits: 2 },
            }],
        },
        description: None,
        vertipads: Vec::new(),
    }
}

fn group(n: u128, owner: u128, delegatee: Option<u128>, members: &[u128]) -> AssetGroup {
    AssetGroup {
        id: id(n),
        name: None,
        owner: id(owner),
        created_at: at(1),
        updated_at: None,
        delegatee: delegatee.map(id),
        assets: members.iter().map(|m| id(*m)).collect(),
    }
}

fn operators() -> Vec<Operator> {
    vec![operator(O1), operator(O2), operator(O3)]
}

fn ids(refs: &[AssetRef]) -> Vec<Identifier> {
    refs.iter().map(|r| r.id).collect()
}

fn owned(n: u128, kind: AssetKind) -> AssetRef {
    AssetRef { id: id(n), kind, relation: Relation::Owned }
}

fn lent(n: u128, kind: AssetKind) -> AssetRef {
    AssetRef { id: id(n), kind, relation: Relation::DelegatedFrom }
}

fn borrowed(n: u128, kind: AssetKind) -> AssetRef {
    AssetRef { id: id(n), kind, relation: Relation::DelegatedTo }
}

fn register_payload(owner: u128) -> RegisterAircraftPayload {
    RegisterAircraftPayload {
        name: None,
        asset_group_id: None,
        schedule: None,
        owner: text(owner),
        whitelist: Vec::new(),
        status: AssetStatus::Available,
        manufacturer: "Maker".to_string(),
        vehicle_model_id: text(0x50),
        serial_number: "SN".to_string(),
        registration_number: "N1".to_string(),
        description: None,
        max_payload_kg: Quantity { bits: 0 },
        max_range_km: Quantity { bits: 0 },
        last_maintenance: None,
        next_maintenance: None,
        last_vertiport_id: None,
    }
}

#[test]
fn a_registered_aircraft_without_group_is_owned_and_not_lent() {
    let mut snapshot = Snapshot::new();
    snapshot.operators = operators();
    let writes = register_aircraft_as(register_payload(O1), id(A1), at(5)).unwrap();
    assert_eq!(snapshot.apply_all(&writes), Ok(()));

    let mine = resolve_operator_assets(&snapshot, id(O1), ResolveMode::Owned).unwrap();
    assert_eq!(mine, vec![owned(A1, AssetKind::Aircraft)]);
    let from = resolve_operator_assets(&snapshot, id(O1), ResolveMode::DelegatedFrom).unwrap();
    assert_eq!(from, Vec::new());
    let to = resolve_operator_assets(&snapshot, id(O1), ResolveMode::DelegatedTo).unwrap();
    assert_eq!(to, Vec::new());
    let all = resolve_operator_assets(&snapshot, id(O1), ResolveMode::All).unwrap();
    assert_eq!(all, vec![owned(A1, AssetKind::Aircraft)]);
    let others = resolve_operator_assets(&snapshot, id(O2), ResolveMode::All).unwrap();
    assert_eq!(others, Vec::new());
}

#[test]
fn lending_a_group_moves_its_assets_to_the_delegatee() {
    let mut snapshot = Snapshot::new();
    snapshot.operators = operators();
    snapshot.aircraft.push(aircraft(A1, O1));
    snapshot.groups.push(group(G1, O1, None, &[A1]));

    let before = resolve_operator_assets(&snapshot, id(O1), ResolveMode::Owned).unwrap();
    assert_eq!(ids(&before), vec![id(A1)]);

    let updated = set_delegatee(&snapshot, id(G1), Some(id(O2)), id(O1), at(9)).unwrap();
    assert_eq!(updated.delegatee, Some(id(O2)));
    assert_eq!(updated.updated_at, Some(at(9)));
    assert_eq!(updated.assets, vec![id(A1)]);
    assert_eq!(snapshot.apply(&StoreWrite::UpdateAssetGroup(updated)), Ok(()));

    let to = resolve_operator_assets(&snapshot, id(O2), ResolveMode::DelegatedTo).unwrap();
    assert_eq!(to, vec![borrowed(A1, AssetKind::Aircraft)]);
    let mine = resolve_operator_assets(&snapshot, id(O1), ResolveMode::Owned).unwrap();
    assert_eq!(mine, Vec::new());
    let from = resolve_operator_assets(&snapshot, id(O1), ResolveMode::DelegatedFrom).unwrap();
    assert_eq!(from, vec![lent(A1, AssetKind::Aircraft)]);
    // the borrower does not own it, and nobody else sees it
    let theirs = resolve_operator_assets(&snapshot, id(O2), ResolveMode::Owned).unwrap();
    assert_eq!(theirs, Vec::new());
    let third = resolve_operator_assets(&snapshot, id(O3), ResolveMode::All).unwrap();
    assert_eq!(third, Vec::new());
}

#[test]
fn only_the_owner_may_lend_a_group() {
    let mut snapshot = Snapshot::new();
    snapshot.operators = operators();
    snapshot.groups.push(group(G1, O1, None, &[A1]));
    let kept = snapshot.groups[0].clone();

    let refused = set_delegatee(&snapshot, id(G1), Some(id(O3)), id(O2), at(9));
    assert_eq!(refused, Err(RegistryError::Forbidden));
    assert_eq!(snapshot.groups[0], kept);

    // also to clear, and also when the group is lent to the one who asks
    snapshot.groups[0].delegatee = Some(id(O2));
    assert_eq!(
        set_delegatee(&snapshot, id(G1), None, id(O2), at(9)),
        Err(RegistryError::Forbidden)
    );
    assert_eq!(
        snapshot.groups[0].clone().set_delegatee(Some(id(O2)), id(O3), at(9)),
        Err(RegistryError::Forbidden)
    );
}

#[test]
fn set_delegatee_on_a_missing_group_is_not_found() {
    let snapshot = Snapshot::new();
    assert_eq!(
        set_delegatee(&snapshot, id(G1), Some(id(O2)), id(O1), at(9)),
        Err(RegistryError::NotFound)
    );
}

#[test]
fn lending_to_the_owner_changes_nothing() {
    let mut snapshot = Snapshot::new();
    snapshot.groups.push(group(G1, O1, Some(O2), &[A1]));
    let same = set_delegatee(&snapshot, id(G1), Some(id(O1)), id(O1), at(9)).unwrap();
    assert_eq!(same, group(G1, O1, Some(O2), &[A1]));
}

#[test]
fn a_new_delegatee_replaces_the_old_one_and_none_takes_the_group_back() {
    let mut snapshot = Snapshot::new();
    snapshot.operators = operators();
    snapshot.aircraft.push(aircraft(A1, O1));
    snapshot.groups.push(group(G1, O1, Some(O2), &[A1]));

    let next = set_delegatee(&snapshot, id(G1), Some(id(O3)), id(O1), at(9)).unwrap();
    assert_eq!(next.delegatee, Some(id(O3)));
    assert_eq!(snapshot.apply(&StoreWrite::UpdateAssetGroup(next)), Ok(()));
    let second = resolve_operator_assets(&snapshot, id(O2), ResolveMode::DelegatedTo).unwrap();
    assert_eq!(second, Vec::new());
    let third = resolve_operator_assets(&snapshot, id(O3), ResolveMode::DelegatedTo).unwrap();
    assert_eq!(ids(&third), vec![id(A1)]);

    let back = set_delegatee(&snapshot, id(G1), None, id(O1), at(10)).unwrap();
    assert_eq!(back.delegatee, None);
    assert_eq!(back.updated_at, Some(at(10)));
    assert_eq!(snapshot.apply(&StoreWrite::UpdateAssetGroup(back)), Ok(()));
    let mine = resolve_operator_assets(&snapshot, id(O1), ResolveMode::Owned).unwrap();
    assert_eq!(ids(&mine), vec![id(A1)]);
}

#[test]
fn an_unknown_operator_is_not_found() {
    let mut snapshot = Snapshot::new();
    snapshot.operators.push(operator(O1));
    snapshot.aircraft.push(aircraft(A1, O2));
    for mode in [
        ResolveMode::Owned,
        ResolveMode::DelegatedTo,
        ResolveMode::DelegatedFrom,
        ResolveMode::All,
    ] {
        assert_eq!(
            resolve_operator_assets(&snapshot, id(O2), mode),
            Err(RegistryError::NotFound)
        );
    }
}

#[test]
fn the_three_relations_partition_what_all_returns() {
    let mut snapshot = Snapshot::new();
    snapshot.operators = operators();
    snapshot.aircraft.push(aircraft(A1, O1)); // lent to O2 through G1
    snapshot.aircraft.push(aircraft(A2, O1)); // in no group
    snapshot.aircraft.push(aircraft(0xa3, O2)); // borrowed by O1 through G2
    snapshot.aircraft.push(aircraft(0xa4, O1)); // in a group that is not lent
    snapshot.vertiports.push(vertiport(V1, O1)); // lent to O2 through G1
    snapshot.vertiports.push(vertiport(0xb2, O3)); // of somebody else
    snapshot.groups.push(group(G1, O1, Some(O2), &[A1, V1]));
    snapshot.groups.push(group(G2, O2, Some(O1), &[0xa3]));
    snapshot.groups.push(group(0xc3, O1, None, &[0xa4]));

    let o = resolve_operator_assets(&snapshot, id(O1), ResolveMode::Owned).unwrap();
    let t = resolve_operator_assets(&snapshot, id(O1), ResolveMode::DelegatedTo).unwrap();
    let f = resolve_operator_assets(&snapshot, id(O1), ResolveMode::DelegatedFrom).unwrap();
    let all = resolve_operator_assets(&snapshot, id(O1), ResolveMode::All).unwrap();

    assert_eq!(o, vec![owned(A2, AssetKind::Aircraft), owned(0xa4, AssetKind::Aircraft)]);
    assert_eq!(t, vec![borrowed(0xa3, AssetKind::Aircraft)]);
    assert_eq!(f, vec![lent(A1, AssetKind::Aircraft), lent(V1, AssetKind::Vertiport)]);
    let mut joined = o.clone();
    joined.extend(t.clone());
    joined.extend(f.clone());
    assert_eq!(all, joined);
    for r in &o {
        assert!(!ids(&f).contains(&r.id));
        assert!(!ids(&t).contains(&r.id));
    }

    // seen from the other side
    let t2 = resolve_operator_assets(&snapshot, id(O2), ResolveMode::DelegatedTo).unwrap();
    assert_eq!(t2, vec![borrowed(A1, AssetKind::Aircraft), borrowed(V1, AssetKind::Vertiport)]);
    let f2 = resolve_operator_assets(&snapshot, id(O2), ResolveMode::DelegatedFrom).unwrap();
    assert_eq!(f2, vec![lent(0xa3, AssetKind::Aircraft)]);
    let o2 = resolve_operator_assets(&snapshot, id(O2), ResolveMode::Owned).unwrap();
    assert_eq!(o2, Vec::new());
}

#[test]
fn a_group_lent_to_its_own_owner_is_not_lent() {
    let groups = vec![group(G1, O1, Some(O1), &[A1])];
    let e = AssetEntry { id: id(A1), kind: AssetKind::Aircraft, owner: id(O1) };
    assert!(stands(&groups, e, id(O1), Relation::Owned));
    assert!(!stands(&groups, e, id(O1), Relation::DelegatedFrom));
    assert!(!stands(&groups, e, id(O1), Relation::DelegatedTo));
    assert_eq!(groups[0].active_delegatee(), None);
    assert_eq!(group(G1, O1, Some(O2), &[]).active_delegatee(), Some(id(O2)));
    assert_eq!(group(G1, O1, None, &[]).active_delegatee(), None);
}

#[test]
fn an_asset_in_several_groups_is_lent_if_one_of_them_is() {
    let groups = vec![group(G1, O1, None, &[A1]), group(G2, O1, Some(O3), &[A2, A1])];
    let e = AssetEntry { id: id(A1), kind: AssetKind::Aircraft, owner: id(O1) };
    assert!(!stands(&groups, e, id(O1), Relation::Owned));
    assert!(stands(&groups, e, id(O1), Relation::DelegatedFrom));
    assert!(stands(&groups, e, id(O3), Relation::DelegatedTo));
    assert!(!stands(&groups, e, id(O2), Relation::DelegatedTo));
    assert_eq!(effective_controller(&groups, e), id(O3));
}

#[test]
fn the_owner_governs_until_a_group_is_lent() {
    let e = AssetEntry { id: id(A1), kind: AssetKind::Aircraft, owner: id(O1) };
    assert_eq!(effective_controller(&Vec::new(), e), id(O1));
    assert_eq!(effective_controller(&vec![group(G1, O1, None, &[A1])], e), id(O1));
    assert_eq!(effective_controller(&vec![group(G1, O1, Some(O2), &[A2])], e), id(O1));
    assert_eq!(effective_controller(&vec![group(G1, O1, Some(O2), &[A1])], e), id(O2));
    // the first lending group decides
    let two = vec![group(G1, O1, Some(O2), &[A1]), group(G2, O1, Some(O3), &[A1])];
    assert_eq!(effective_controller(&two, e), id(O2));
}

#[test]
fn an_emergency_closes_an_asset_to_everyone() {
    let mut b = basics(A1, O1);
    b.whitelist = vec![id(O3)];
    assert!(may_use(&b, id(O1), id(O1)));
    assert!(may_use(&b, id(O1), id(O3)));
    assert!(!may_use(&b, id(O1), id(O2)));
    // lent to O2: the owner is out, the whitelist stays
    assert!(may_use(&b, id(O2), id(O2)));
    assert!(!may_use(&b, id(O2), id(O1)));
    assert!(may_use(&b, id(O2), id(O3)));
    b.status = AssetStatus::Emergency;
    assert!(!may_use(&b, id(O1), id(O1)));
    assert!(!may_use(&b, id(O1), id(O3)));
    assert!(!may_use(&b, id(O2), id(O2)));
    b.status = AssetStatus::Unavailable;
    assert!(!may_use(&b, id(O1), id(O1)));
    assert!(!may_use(&b, id(O1), id(O3)));
}

#[test]
fn the_entries_of_a_snapshot_are_aircraft_then_vertiports() {
    let mut snapshot = Snapshot::new();
    snapshot.vertiports.push(vertiport(V1, O2));
    snapshot.aircraft.push(aircraft(A1, O1));
    snapshot.aircraft.push(aircraft(A2, O3));
    assert_eq!(
        asset_entries(&snapshot),
        vec![
            AssetEntry { id: id(A1), kind: AssetKind::Aircraft, owner: id(O1) },
            AssetEntry { id: id(A2), kind: AssetKind::Aircraft, owner: id(O3) },
            AssetEntry { id: id(V1), kind: AssetKind::Vertiport, owner: id(O2) },
        ]
    );
}

#[test]
fn a_group_is_expanded_as_its_record_lists_it() {
    let mut snapshot = Snapshot::new();
    snapshot.groups.push(group(G1, O1, None, &[V1, A2, A1]));
    snapshot.groups.push(group(G2, O1, None, &[]));
    assert_eq!(expand_group(&snapshot, id(G1)), Ok(vec![id(V1), id(A2), id(A1)]));
    assert_eq!(expand_group(&snapshot, id(G2)), Ok(Vec::new()));
    assert_eq!(expand_group(&snapshot, id(0xc9)), Err(RegistryError::NotFound));
}

#[test]
fn membership_is_a_set() {
    let mut g = group(G1, O1, None, &[A1]);
    g.add_member(id(A2));
    g.add_member(id(A1));
    g.add_member(id(A2));
    assert_eq!(g.assets, vec![id(A1), id(A2)]);
    assert!(g.contains(id(A2)));
    assert!(!g.contains(id(V1)));

    let mut members = vec![id(A1)];
    add_members(&mut members, &vec![id(A2), id(A1), id(V1), id(A2)]);
    assert_eq!(members, vec![id(A1), id(A2), id(V1)]);
    assert!(contains_id(&members, id(V1)));

    assert_eq!(remove_member(&members, id(A2)), vec![id(A1), id(V1)]);
    assert_eq!(remove_member(&members, id(0x77)), members);
    assert_eq!(remove_member(&vec![id(A1), id(A1)], id(A1)), Vec::new());
}
