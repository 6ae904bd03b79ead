use svc_assets::amend::{update_aircraft, update_asset_group, update_vertipad, update_vertiport};
use svc_assets::entity::{
    Aircraft, AssetGroup, AssetStatus, Basics, GeoPoint, GeoPolygon, Quantity, Timestamp,
    Vertipad, Vertiport,
};
use svc_assets::error::RegistryError;
use svc_assets::identifier::Identifier;
use svc_assets::mask::{
    mask_contains, parse_mask, AircraftField, AssetGroupField, FieldTag, VertipadField,
    VertiportField,
};
use svc_assets::snapshot::Snapshot;
use svc_assets::store::StoreWrite;
use svc_assets::types::{
    UpdateAircraftPayload, UpdateAssetGroupPayload, UpdateVertipadPayload, UpdateVertiportPayload,
};
use svc_assets::update::{
    check_aircraft_update, check_group_update, check_vertipad_update, check_vertiport_update,
    FieldChange,
};

fn id(n: u128) -> Identifier {
    Identifier { value: 0x00000000_0000_4000_8000_000000000000u128 + n }
}

fn text(n: u128) -> String {
    id(n).to_canonical_string()
}

fn at(seconds: u64) -> Timestamp {
    Timestamp { seconds, nanos: 0 }
}

fn names(list: &[&str]) -> Vec<String> {
    list.iter().map(|s| s.to_string()).collect()
}

fn point(a: u64, b: u64) -> GeoPoint {
    GeoPoint { latitude: Quantity { bits: a }, longitude: Quantity { bits: b } }
}

fn basics(n: u128, owner: u128) -> Basics {
    Basics {
        id: id(n),
        name: Some("asset".to_string()),
        group_id: None,
        owner: id(owner),
        whitelist: vec![id(90)],
        created_at: at(100),
        updated_at: None,
        status: AssetStatus::Available,
        schedule: None,
    }
}

fn aircraft(n: u128, owner: u128) -> Aircraft {
    Aircraft {
        basics: basics(n, owner),
        vehicle_model_id: id(50),
        manufacturer: "Maker".to_string(),
        serial_number: "SN-1".to_string(),
        registration_number: "N123".to_string(),
        description: Some("old".to_string()),
        max_payload_kg: Quantity { bits: 1200.5f64.to_bits() },
        max_range_km: Quantity { bits: 300.0f64.to_bits() },
        last_maintenance: None,
        next_maintenance: Some("2024-01-01".to_string()),
        last_vertiport_id: None,
    }
}

fn vertiport(n: u128, owner: u128, pads: Vec<Identifier>) -> Vertiport {
    Vertiport {
        basics: basics(n, owner),
        geo_location: GeoPolygon { exterior: vec![point(1, 2), point(3, 4), point(5, 6)] },
        description: None,
        vertipads: pads,
    }
}

fn vertipad(n: u128, port: Option<u128>) -> Vertipad {
    Vertipad {
        id: id(n),
        name: None,
        geo_location: point(7, 8),
        vertiport_id: port.map(id),
        enabled: true,
        occupied: false,
        schedule: None,
    }
}

fn group(n: u128, owner: u128, members: Vec<Identifier>) -> AssetGroup {
    AssetGroup {
        id: id(n),
        name: Some("group".to_string()),
        owner: id(owner),
        created_at: at(100),
        updated_at: None,
        delegatee: None,
        assets: members,
    }
}

fn aircraft_payload(n: u128, mask: &[&str]) -> UpdateAircraftPayload {
    UpdateAircraftPayload {
        id: text(n),
        vehicle_model_id: None,
        last_vertiport_id: None,
        serial_number: None,
        registration_number: None,
        description: None,
        asset_group_id: None,
        schedule: None,
        last_maintenance: None,
        next_maintenance: None,
        mask: names(mask),
    }
}

#[test]
fn mask_names_are_read_in_order() {
    let tags = parse_mask::<AircraftField>(&names(&["schedule", "description", "serial_number"]));
    assert_eq!(
        tags,
        Ok(vec![AircraftField::Schedule, AircraftField::Description, AircraftField::SerialNumber])
    );
    let all = parse_mask::<AircraftField>(&names(&[
        "vehicle_model_id",
        "last_vertiport_id",
        "serial_number",
        "registration_number",
        "description",
        "asset_group_id",
        "schedule",
        "last_maintenance",
        "next_maintenance",
    ]));
    assert_eq!(
        all,
        Ok(vec![
            AircraftField::VehicleModelId,
            AircraftField::LastVertiportId,
            AircraftField::SerialNumber,
            AircraftField::RegistrationNumber,
            AircraftField::Description,
            AircraftField::AssetGroupId,
            AircraftField::Schedule,
            AircraftField::LastMaintenance,
            AircraftField::NextMaintenance,
        ])
    );
}

#[test]
fn masks_of_the_other_entities_are_read() {
    assert_eq!(
        parse_mask::<VertiportField>(&names(&["name", "description", "geo_location", "schedule"])),
        Ok(vec![
            VertiportField::Name,
            VertiportField::Description,
            VertiportField::GeoLocation,
            VertiportField::Schedule,
        ])
    );
    assert_eq!(
        parse_mask::<VertipadField>(&names(&[
            "vertiport_id",
            "name",
            "geo_location",
            "enabled",
            "occupied",
            "schedule",
        ])),
        Ok(vec![
            VertipadField::VertiportId,
            VertipadField::Name,
            VertipadField::GeoLocation,
            VertipadField::Enabled,
            VertipadField::Occupied,
            VertipadField::Schedule,
        ])
    );
    assert_eq!(
        parse_mask::<AssetGroupField>(&names(&["assets", "name"])),
        Ok(vec![AssetGroupField::Assets, AssetGroupField::Name])
    );
}

#[test]
fn an_empty_mask_is_invalid() {
    assert_eq!(parse_mask::<AircraftField>(&Vec::new()), Err(RegistryError::InvalidMask));
    assert_eq!(parse_mask::<VertipadField>(&Vec::new()), Err(RegistryError::InvalidMask));
}

#[test]
fn unknown_and_fixed_fields_make_a_mask_invalid() {
    assert_eq!(
        parse_mask::<AircraftField>(&names(&["description", "colour"])),
        Err(RegistryError::InvalidMask)
    );
    assert_eq!(parse_mask::<AircraftField>(&names(&["id"])), Err(RegistryError::InvalidMask));
    assert_eq!(parse_mask::<AircraftField>(&names(&["owner"])), Err(RegistryError::InvalidMask));
    assert_eq!(
        parse_mask::<AircraftField>(&names(&["Description"])),
        Err(RegistryError::InvalidMask)
    );
    assert_eq!(
        parse_mask::<VertiportField>(&names(&["vertipads"])),
        Err(RegistryError::InvalidMask)
    );
    assert_eq!(
        parse_mask::<AssetGroupField>(&names(&["delegatee"])),
        Err(RegistryError::InvalidMask)
    );
    assert_eq!(AircraftField::from_name(&"enabled".to_string()), None);
    assert_eq!(VertipadField::from_name(&"enabled".to_string()), Some(VertipadField::Enabled));
}

#[test]
fn mask_contains_finds_a_tag() {
    let mask = vec![AircraftField::Schedule, AircraftField::Description];
    assert!(mask_contains(&mask, AircraftField::Description));
    assert!(!mask_contains(&mask, AircraftField::SerialNumber));
    assert!(AircraftField::Schedule.same_as(&AircraftField::Schedule));
    assert!(!AircraftField::Schedule.same_as(&AircraftField::Description));
}

#[test]
fn only_the_masked_field_of_an_aircraft_changes() {
    let before = aircraft(1, 10);
    let mut p = aircraft_payload(1, &["description"]);
    p.description = Some(Some("new".to_string()));
    p.serial_number = Some("SN-2".to_string());
    let update = check_aircraft_update(p).unwrap();
    let after = before.clone().apply_update(update, at(200));

    let mut expected = aircraft(1, 10);
    expected.description = Some("new".to_string());
    expected.basics.updated_at = Some(at(200));
    assert_eq!(after, expected);
    assert_eq!(after.serial_number, "SN-1");
}

#[test]
fn applying_an_update_twice_is_applying_it_once() {
    let mut p = aircraft_payload(1, &["description", "schedule", "asset_group_id"]);
    p.description = Some(None);
    p.schedule = Some(Some("FREQ=DAILY".to_string()));
    p.asset_group_id = Some(Some(text(7)));
    let once = aircraft(1, 10).apply_update(check_aircraft_update(p.clone()).unwrap(), at(200));
    let twice = once.clone().apply_update(check_aircraft_update(p).unwrap(), at(200));
    assert_eq!(once, twice);
    assert_eq!(once.description, None);
    assert_eq!(once.basics.schedule, Some("FREQ=DAILY".to_string()));
    assert_eq!(once.basics.group_id, Some(id(7)));
}

#[test]
fn a_masked_field_without_a_value_keeps_the_prior_value() {
    let p = aircraft_payload(1, &["description", "serial_number", "last_vertiport_id"]);
    let after = aircraft(1, 10).apply_update(check_aircraft_update(p).unwrap(), at(200));
    let mut expected = aircraft(1, 10);
    expected.basics.updated_at = Some(at(200));
    assert_eq!(after, expected);
}

#[test]
fn every_aircraft_field_can_be_set_through_its_mask() {
    let mut p = aircraft_payload(
        1,
        &[
            "vehicle_model_id",
            "last_vertiport_id",
            "serial_number",
            "registration_number",
            "description",
            "asset_group_id",
            "schedule",
            "last_maintenance",
            "next_maintenance",
        ],
    );
    p.vehicle_model_id = Some(text(51));
    p.last_vertiport_id = Some(text(52));
    p.serial_number = Some("SN-9".to_string());
    p.registration_number = Some("N999".to_string());
    p.description = Some(Some("fresh".to_string()));
    p.asset_group_id = Some(None);
    p.schedule = Some(Some("FREQ=WEEKLY".to_string()));
    p.last_maintenance = Some(Some("2023-06-01".to_string()));
    p.next_maintenance = Some(None);
    let mut before = aircraft(1, 10);
    before.basics.group_id = Some(id(7));
    let after = before.apply_update(check_aircraft_update(p).unwrap(), at(300));

    let mut expected = aircraft(1, 10);
    expected.vehicle_model_id = id(51);
    expected.last_vertiport_id = Some(id(52));
    expected.serial_number = "SN-9".to_string();
    expected.registration_number = "N999".to_string();
    expected.description = Some("fresh".to_string());
    expected.basics.group_id = None;
    expected.basics.schedule = Some("FREQ=WEEKLY".to_string());
    expected.last_maintenance = Some("2023-06-01".to_string());
    expected.next_maintenance = None;
    expected.basics.updated_at = Some(at(300));
    assert_eq!(after, expected);
}

#[test]
fn a_malformed_identifier_counts_only_where_the_mask_lets_it_in() {
    let mut ignored = aircraft_payload(1, &["description"]);
    ignored.vehicle_model_id = Some("nonsense".to_string());
    let update = check_aircraft_update(ignored).unwrap();
    assert_eq!(update.vehicle_model_id, None);
    assert_eq!(update.id, id(1));
    assert_eq!(update.mask, vec![AircraftField::Description]);

    let mut masked = aircraft_payload(1, &["vehicle_model_id"]);
    masked.vehicle_model_id = Some("nonsense".to_string());
    assert_eq!(check_aircraft_update(masked), Err(RegistryError::InvalidFormat));

    let mut group = aircraft_payload(1, &["asset_group_id"]);
    group.asset_group_id = Some(Some("nonsense".to_string()));
    assert_eq!(check_aircraft_update(group), Err(RegistryError::InvalidFormat));

    let mut port = aircraft_payload(1, &["last_vertiport_id"]);
    port.last_vertiport_id = Some("nonsense".to_string());
    assert_eq!(check_aircraft_update(port), Err(RegistryError::InvalidFormat));
}

#[test]
fn the_identifier_is_checked_before_the_mask() {
    let mut p = aircraft_payload(1, &[]);
    p.id = "nonsense".to_string();
    assert_eq!(check_aircraft_update(p), Err(RegistryError::InvalidFormat));
    assert_eq!(
        check_aircraft_update(aircraft_payload(1, &[])),
        Err(RegistryError::InvalidMask)
    );
    assert_eq!(
        check_aircraft_update(aircraft_payload(1, &["wings"])),
        Err(RegistryError::InvalidMask)
    );
}

#[test]
fn update_aircraft_plans_one_write_of_the_new_record() {
    let mut snapshot = Snapshot::new();
    snapshot.aircraft.push(aircraft(2, 10));
    snapshot.aircraft.push(aircraft(1, 10));
    let mut p = aircraft_payload(1, &["registration_number"]);
    p.registration_number = Some("N777".to_string());
    let writes = update_aircraft(&snapshot, p, at(500)).unwrap();

    let mut expected = aircraft(1, 10);
    expected.registration_number = "N777".to_string();
    expected.basics.updated_at = Some(at(500));
    assert_eq!(writes, vec![StoreWrite::UpdateAircraft(expected)]);
}

#[test]
fn update_of_a_missing_entity_is_not_found() {
    let snapshot = Snapshot::new();
    let mut p = aircraft_payload(1, &["description"]);
    p.description = Some(None);
    assert_eq!(update_aircraft(&snapshot, p, at(1)), Err(RegistryError::NotFound));

    let v = UpdateVertiportPayload {
        id: text(2),
        name: None,
        description: None,
        geo_location: None,
        schedule: None,
        mask: names(&["name"]),
    };
    assert_eq!(update_vertiport(&snapshot, v, at(1)), Err(RegistryError::NotFound));

    let pad = UpdateVertipadPayload {
        id: text(3),
        vertiport_id: None,
        name: None,
        geo_location: None,
        enabled: None,
        occupied: None,
        schedule: None,
        mask: names(&["enabled"]),
    };
    assert_eq!(update_vertipad(&snapshot, pad), Err(RegistryError::NotFound));

    let g = UpdateAssetGroupPayload { id: text(4), name: None, assets: None, mask: names(&["name"]) };
    assert_eq!(update_asset_group(&snapshot, g, at(1)), Err(RegistryError::NotFound));
}

#[test]
fn update_checks_the_request_before_it_looks_the_entity_up() {
    let snapshot = Snapshot::new();
    assert_eq!(
        update_aircraft(&snapshot, aircraft_payload(1, &[]), at(1)),
        Err(RegistryError::InvalidMask)
    );
    let mut bad = aircraft_payload(1, &["description"]);
    bad.id = "".to_string();
    assert_eq!(update_aircraft(&snapshot, bad, at(1)), Err(RegistryError::InvalidFormat));
}

#[test]
fn a_vertiport_update_sets_name_area_and_schedule() {
    let p = UpdateVertiportPayload {
        id: text(2),
        name: Some("North".to_string()),
        description: Some("ignored".to_string()),
        geo_location: Some(GeoPolygon { exterior: vec![point(9, 9)] }),
        schedule: Some(None),
        mask: names(&["name", "geo_location", "schedule"]),
    };
    let mut before = vertiport(2, 10, vec![id(30)]);
    before.basics.schedule = Some("FREQ=DAILY".to_string());
    let update = check_vertiport_update(p.clone()).unwrap();
    let after = before.clone().apply_update(update, at(700));

    let mut expected = vertiport(2, 10, vec![id(30)]);
    expected.basics.name = Some("North".to_string());
    expected.geo_location = GeoPolygon { exterior: vec![point(9, 9)] };
    expected.basics.schedule = None;
    expected.basics.updated_at = Some(at(700));
    assert_eq!(after, expected);
    assert_eq!(after.description, None);

    let again = after.clone().apply_update(check_vertiport_update(p).unwrap(), at(700));
    assert_eq!(again, after);
}

#[test]
fn a_vertiport_update_with_a_bad_mask_or_identifier_fails() {
    let mut p = UpdateVertiportPayload {
        id: text(2),
        name: None,
        description: None,
        geo_location: None,
        schedule: None,
        mask: names(&["enabled"]),
    };
    assert_eq!(check_vertiport_update(p.clone()), Err(RegistryError::InvalidMask));
    p.id = "2".to_string();
    assert_eq!(check_vertiport_update(p), Err(RegistryError::InvalidFormat));
}

#[test]
fn a_vertipad_update_sets_its_flags() {
    let p = UpdateVertipadPayload {
        id: text(3),
        vertiport_id: Some(text(99)),
        name: Some("Pad A".to_string()),
        geo_location: Some(point(1, 1)),
        enabled: Some(false),
        occupied: Some(true),
        schedule: Some(Some("FREQ=DAILY".to_string())),
        mask: names(&["enabled", "occupied", "name"]),
    };
    let update = check_vertipad_update(p.clone()).unwrap();
    let after = vertipad(3, Some(2)).apply_update(update);
    let mut expected = vertipad(3, Some(2));
    expected.enabled = false;
    expected.occupied = true;
    expected.name = Some("Pad A".to_string());
    assert_eq!(after, expected);
    let again = after.clone().apply_update(check_vertipad_update(p).unwrap());
    assert_eq!(again, after);
}

#[test]
fn a_vertipad_update_reads_the_vertiport_only_where_masked() {
    let mut p = UpdateVertipadPayload {
        id: text(3),
        vertiport_id: Some("nonsense".to_string()),
        name: None,
        geo_location: None,
        enabled: None,
        occupied: None,
        schedule: None,
        mask: names(&["enabled"]),
    };
    assert!(check_vertipad_update(p.clone()).is_ok());
    p.mask = names(&["vertiport_id"]);
    assert_eq!(check_vertipad_update(p), Err(RegistryError::InvalidFormat));
}

#[test]
fn moving_a_vertipad_relinks_both_vertiports() {
    let mut snapshot = Snapshot::new();
    snapshot.vertiports.push(vertiport(20, 10, vec![id(3), id(4)]));
    snapshot.vertiports.push(vertiport(21, 10, vec![]));
    snapshot.vertipads.push(vertipad(3, Some(20)));
    snapshot.vertipads.push(vertipad(4, Some(20)));
    let p = UpdateVertipadPayload {
        id: text(3),
        vertiport_id: Some(text(21)),
        name: None,
        geo_location: None,
        enabled: None,
        occupied: None,
        schedule: None,
        mask: names(&["vertiport_id"]),
    };
    let writes = update_vertipad(&snapshot, p.clone()).unwrap();
    assert_eq!(
        writes,
        vec![
            StoreWrite::UpdateVertipad(vertipad(3, Some(21))),
            StoreWrite::UpdateVertiport(vertiport(21, 10, vec![id(3)])),
            StoreWrite::UpdateVertiport(vertiport(20, 10, vec![id(4)])),
        ]
    );
    assert_eq!(snapshot.apply_all(&writes), Ok(()));
    assert_eq!(snapshot.vertipads[0].vertiport_id, Some(id(21)));
    assert_eq!(snapshot.vertiports[0].vertipads, vec![id(4)]);
    assert_eq!(snapshot.vertiports[1].vertipads, vec![id(3)]);

    // a second time the pad stays where it is
    let again = update_vertipad(&snapshot, p).unwrap();
    assert_eq!(again, vec![StoreWrite::UpdateVertipad(vertipad(3, Some(21)))]);
}

#[test]
fn moving_a_vertipad_to_a_missing_vertiport_is_not_found() {
    let mut snapshot = Snapshot::new();
    snapshot.vertiports.push(vertiport(20, 10, vec![id(3)]));
    snapshot.vertipads.push(vertipad(3, Some(20)));
    let p = UpdateVertipadPayload {
        id: text(3),
        vertiport_id: Some(text(21)),
        name: None,
        geo_location: None,
        enabled: None,
        occupied: None,
        schedule: None,
        mask: names(&["vertiport_id"]),
    };
    assert_eq!(update_vertipad(&snapshot, p), Err(RegistryError::NotFound));
}

#[test]
fn a_group_update_keeps_each_member_once() {
    let p = UpdateAssetGroupPayload {
        id: text(5),
        name: Some(None),
        assets: Some(vec![text(1), text(2), text(1), text(3), text(2)]),
        mask: names(&["assets"]),
    };
    let update = check_group_update(p.clone()).unwrap();
    let mut before = group(5, 10, vec![id(8)]);
    before.delegatee = Some(id(11));
    let after = before.apply_update(update, at(900));
    let mut expected = group(5, 10, vec![id(1), id(2), id(3)]);
    expected.delegatee = Some(id(11));
    expected.updated_at = Some(at(900));
    assert_eq!(after, expected);
    let again = after.clone().apply_update(check_group_update(p).unwrap(), at(900));
    assert_eq!(again, after);
}

#[test]
fn a_group_update_reads_members_only_where_masked() {
    let mut p = UpdateAssetGroupPayload {
        id: text(5),
        name: Some(Some("renamed".to_string())),
        assets: Some(vec!["nonsense".to_string()]),
        mask: names(&["name"]),
    };
    let update = check_group_update(p.clone()).unwrap();
    assert_eq!(update.assets, None);
    let after = group(5, 10, vec![id(8)]).apply_update(update, at(1));
    assert_eq!(after.name, Some("renamed".to_string()));
    assert_eq!(after.assets, vec![id(8)]);
    p.mask = names(&["assets"]);
    assert_eq!(check_group_update(p), Err(RegistryError::InvalidFormat));
}

#[test]
fn update_of_a_group_and_a_vertiport_plan_one_write() {
    let mut snapshot = Snapshot::new();
    snapshot.groups.push(group(5, 10, vec![id(1)]));
    snapshot.vertiports.push(vertiport(20, 10, vec![]));
    let g = UpdateAssetGroupPayload {
        id: text(5),
        name: Some(None),
        assets: None,
        mask: names(&["name"]),
    };
    let mut expected_group = group(5, 10, vec![id(1)]);
    expected_group.name = None;
    expected_group.updated_at = Some(at(3));
    assert_eq!(
        update_asset_group(&snapshot, g, at(3)),
        Ok(vec![StoreWrite::UpdateAssetGroup(expected_group)])
    );
    let v = UpdateVertiportPayload {
        id: text(20),
        name: None,
        description: Some("by the river".to_string()),
        geo_location: None,
        schedule: None,
        mask: names(&["description"]),
    };
    let mut expected_port = vertiport(20, 10, vec![]);
    expected_port.description = Some("by the river".to_string());
    expected_port.basics.updated_at = Some(at(4));
    assert_eq!(
        update_vertiport(&snapshot, v, at(4)),
        Ok(vec![StoreWrite::UpdateVertiport(expected_port)])
    );
}

#[test]
fn a_nested_option_is_read_as_one_of_three_changes() {
    assert_eq!(FieldChange::<String>::from_nested(None), FieldChange::Omitted);
    assert_eq!(FieldChange::<String>::from_nested(Some(None)), FieldChange::SetNull);
    assert_eq!(
        FieldChange::from_nested(Some(Some("x".to_string()))),
        FieldChange::SetValue("x".to_string())
    );
    let mut p = aircraft_payload(1, &["schedule"]);
    p.description = Some(Some("unmasked".to_string()));
    p.schedule = Some(None);
    p.asset_group_id = Some(Some(text(7)));
    let update = check_aircraft_update(p).unwrap();
    assert_eq!(update.description, FieldChange::SetValue("unmasked".to_string()));
    assert_eq!(update.schedule, FieldChange::SetNull);
    assert_eq!(update.asset_group_id, FieldChange::Omitted);
    assert_eq!(update.next_maintenance, FieldChange::Omitted);
}
