//! Registering entities: a complete payload becomes a new record under a
//! freshly drawn identifier.

use crate::entity::{
    text_of, Aircraft, AircraftView, AssetGroup, AssetGroupView, Basics, BasicsView, Timestamp,
    Vertipad, VertipadView, Vertiport, VertiportView,
};
use crate::error::RegistryError;
use crate::group::{add_members, contains_id, with_member, with_members};
use crate::identifier::{
    fresh_identifier, identifier_of, identifiers_of, is_version4, parse_identifier,
    parse_identifiers, Identifier,
};
use crate::snapshot::{fetch, found, views, Snapshot, SnapshotView};
use crate::store::{plans, StoreWrite, StoreWriteView};
use crate::types::{
    RegisterAircraftPayload, RegisterAssetGroupPayload, RegisterVertipadPayload,
    RegisterVertiportPayload,
};
use vstd::prelude::*;

verus! {

/// What a registration hands out: the identifier that the new entity was
/// given, and the writes that store it.
#[derive(Debug, PartialEq, Eq)]
pub struct Registered {
    pub id: Identifier,
    pub writes: Vec<StoreWrite>,
}

/// The identifier that a required field of a payload spells; a text that
/// spells none makes the payload invalid.
pub open spec fn required_identifier(text: Seq<char>) -> Result<Identifier, RegistryError> {
    match identifier_of(text) {
        Ok(id) => Ok(id),
        Err(_) => Err(RegistryError::InvalidPayload),
    }
}

/// The identifier that an optional field of a payload spells.
pub open spec fn optional_identifier(text: Option<String>) -> Result<
    Option<Identifier>,
    RegistryError,
> {
    match text {
        Some(t) => match identifier_of(t@) {
            Ok(id) => Ok(Some(id)),
            Err(_) => Err(RegistryError::InvalidPayload),
        },
        None => Ok(None),
    }
}

/// The set of identifiers that a list of texts spells, each once and in the
/// order of its first appearance.
pub open spec fn identifier_set(texts: Seq<String>) -> Result<Seq<Identifier>, RegistryError> {
    match identifiers_of(texts) {
        Some(ids) => Ok(with_members(Seq::empty(), ids)),
        None => Err(RegistryError::InvalidPayload),
    }
}

fn read_required(text: &String) -> (r: Result<Identifier, RegistryError>)
    ensures
        r == required_identifier(text@),
{
    match parse_identifier(text.as_str()) {
        Ok(id) => Ok(id),
        Err(_) => Err(RegistryError::InvalidPayload),
    }
}

fn read_optional(text: &Option<String>) -> (r: Result<Option<Identifier>, RegistryError>)
    ensures
        r == optional_identifier(*text),
{
    match text {
        Some(t) => match parse_identifier(t.as_str()) {
            Ok(id) => Ok(Some(id)),
            Err(_) => Err(RegistryError::InvalidPayload),
        },
        None => Ok(None),
    }
}

fn read_set(texts: &Vec<String>) -> (r: Result<Vec<Identifier>, RegistryError>)
    ensures
        match identifier_set(texts@) {
            Ok(ids) => r matches Ok(v) && v@ == ids,
            Err(e) => r matches Err(f) && f == e,
        },
{
    match parse_identifiers(texts) {
        Some(ids) => {
            let mut out: Vec<Identifier> = Vec::new();
            add_members(&mut out, &ids);
            Ok(out)
        },
        None => Err(RegistryError::InvalidPayload),
    }
}

/// The identifiers in the common part of a registration, once read.
#[derive(Debug, PartialEq, Eq)]
pub struct BasicsIds {
    /// The operator that owns the asset.
    pub owner: Identifier,
    /// The group that the asset is put in.
    pub group_id: Option<Identifier>,
    /// Operators that may use the asset besides its owner, each once.
    pub whitelist: Vec<Identifier>,
}

/// The view of a [`BasicsIds`].
pub ghost struct BasicsIdsView {
    pub owner: Identifier,
    pub group_id: Option<Identifier>,
    pub whitelist: Seq<Identifier>,
}

impl View for BasicsIds {
    type V = BasicsIdsView;

    open spec fn view(&self) -> BasicsIdsView {
        BasicsIdsView { owner: self.owner, group_id: self.group_id, whitelist: self.whitelist@ }
    }
}

/// The identifiers in the common part of a registration: the payload is
/// invalid where the owner, the group or an entry of the whitelist spells no
/// identifier.
pub open spec fn checked_basics_ids(
    owner: Seq<char>,
    group: Option<String>,
    whitelist: Seq<String>,
) -> Result<BasicsIdsView, RegistryError> {
    match required_identifier(owner) {
        Err(e) => Err(e),
        Ok(owner) => match optional_identifier(group) {
            Err(e) => Err(e),
            Ok(group_id) => match identifier_set(whitelist) {
                Err(e) => Err(e),
                Ok(whitelist) => Ok(BasicsIdsView { owner, group_id, whitelist }),
            },
        },
    }
}

fn check_basics_ids(owner: &String, group: &Option<String>, whitelist: &Vec<String>) -> (r: Result<
    BasicsIds,
    RegistryError,
>)
    ensures
        match checked_basics_ids(owner@, *group, whitelist@) {
            Ok(ids) => r matches Ok(v) && v@ == ids,
            Err(e) => r matches Err(f) && f == e,
        },
{
    let owner = match read_required(owner) {
        Ok(v) => v,
        Err(e) => {
            return Err(e);
        },
    };
    let group_id = match read_optional(group) {
        Ok(v) => v,
        Err(e) => {
            return Err(e);
        },
    };
    let whitelist = match read_set(whitelist) {
        Ok(v) => v,
        Err(e) => {
            return Err(e);
        },
    };
    Ok(BasicsIds { owner, group_id, whitelist })
}

/// The schedule that a registration names, if it names one.
pub open spec fn named_schedule(o: Option<Option<String>>) -> Option<Seq<char>> {
    match o {
        Some(Some(s)) => Some(s@),
        _ => None,
    }
}

fn take_schedule(o: Option<Option<String>>) -> (r: Option<String>)
    ensures
        text_of(r) == named_schedule(o),
{
    match o {
        Some(Some(s)) => Some(s),
        _ => None,
    }
}

/// The identifiers in a request to register an aircraft: those of the
/// common part, the model and the vertiport where the aircraft last landed.
pub open spec fn checked_aircraft_ids(p: RegisterAircraftPayload) -> Result<
    (BasicsIdsView, Identifier, Option<Identifier>),
    RegistryError,
> {
    match checked_basics_ids(p.owner@, p.asset_group_id, p.whitelist@) {
        Err(e) => Err(e),
        Ok(ids) => match required_identifier(p.vehicle_model_id@) {
            Err(e) => Err(e),
            Ok(model) => match optional_identifier(p.last_vertiport_id) {
                Err(e) => Err(e),
                Ok(port) => Ok((ids, model, port)),
            },
        },
    }
}

/// The aircraft that a payload describes, stored under `id` at the time
/// `now`, given the identifiers that the payload spells.
pub open spec fn new_aircraft(
    p: RegisterAircraftPayload,
    ids: BasicsIdsView,
    model: Identifier,
    port: Option<Identifier>,
    id: Identifier,
    now: Timestamp,
) -> AircraftView {
    AircraftView {
        basics: BasicsView {
            id,
            name: text_of(p.name),
            group_id: ids.group_id,
            owner: ids.owner,
            whitelist: ids.whitelist,
            created_at: now,
            updated_at: None,
            status: p.status,
            schedule: named_schedule(p.schedule),
        },
        vehicle_model_id: model,
        manufacturer: p.manufacturer@,
        serial_number: p.serial_number@,
        registration_number: p.registration_number@,
        description: text_of(p.description),
        max_payload_kg: p.max_payload_kg,
        max_range_km: p.max_range_km,
        last_maintenance: text_of(p.last_maintenance),
        next_maintenance: text_of(p.next_maintenance),
        last_vertiport_id: port,
    }
}

/// The writes that register an aircraft under `id`: one insert of the new
/// record. A payload with a malformed identifier is invalid.
pub open spec fn aircraft_registration(p: RegisterAircraftPayload, id: Identifier, now: Timestamp) -> Result<
    Seq<StoreWriteView>,
    RegistryError,
> {
    match checked_aircraft_ids(p) {
        Err(e) => Err(e),
        Ok((ids, model, port)) => Ok(
            seq![StoreWriteView::InsertAircraft(new_aircraft(p, ids, model, port, id, now))],
        ),
    }
}

impl Aircraft {
    /// Builds the record of a new aircraft from a payload and the
    /// identifiers that were read from it.
    pub fn from_payload(
        p: RegisterAircraftPayload,
        ids: BasicsIds,
        model: Identifier,
        port: Option<Identifier>,
        id: Identifier,
        now: Timestamp,
    ) -> (r: Aircraft)
        ensures
            r@ == new_aircraft(p, ids@, model, port, id, now),
    {
        Aircraft {
            basics: Basics {
                id,
                name: p.name,
                group_id: ids.group_id,
                owner: ids.owner,
                whitelist: ids.whitelist,
                created_at: now,
                updated_at: None,
                status: p.status,
                schedule: take_schedule(p.schedule),
            },
            vehicle_model_id: model,
            manufacturer: p.manufacturer,
            serial_number: p.serial_number,
            registration_number: p.registration_number,
            description: p.description,
            max_payload_kg: p.max_payload_kg,
            max_range_km: p.max_range_km,
            last_maintenance: p.last_maintenance,
            next_maintenance: p.next_maintenance,
            last_vertiport_id: port,
        }
    }
}

/// Plans the registration of an aircraft under a given identifier.
pub fn register_aircraft_as(p: RegisterAircraftPayload, id: Identifier, now: Timestamp) -> (r: Result<
    Vec<StoreWrite>,
    RegistryError,
>)
    ensures
        plans(r, aircraft_registration(p, id, now)),
{
    let ids = match check_basics_ids(&p.owner, &p.asset_group_id, &p.whitelist) {
        Ok(v) => v,
        Err(e) => {
            return Err(e);
        },
    };
    let model = match read_required(&p.vehicle_model_id) {
        Ok(v) => v,
        Err(e) => {
            return Err(e);
        },
    };
    let port = match read_optional(&p.last_vertiport_id) {
        Ok(v) => v,
        Err(e) => {
            return Err(e);
        },
    };
    let record = Aircraft::from_payload(p, ids, model, port, id, now);
    let mut writes: Vec<StoreWrite> = Vec::new();
    writes.push(StoreWrite::InsertAircraft(record));
    assert(views(writes@) =~= seq![StoreWriteView::InsertAircraft(record@)]);
    Ok(writes)
}

/// Registers an aircraft under a freshly drawn identifier.
pub fn register_aircraft(p: RegisterAircraftPayload, now: Timestamp) -> (r: Result<
    Registered,
    RegistryError,
>)
    ensures
        match checked_aircraft_ids(p) {
            Ok(_) => r matches Ok(done) && is_version4(done.id.value) && aircraft_registration(
                p,
                done.id,
                now,
            ) == Ok::<Seq<StoreWriteView>, RegistryError>(views(done.writes@)),
            Err(e) => r matches Err(f) && f == e,
        },
{
    let id = fresh_identifier();
    match register_aircraft_as(p, id, now) {
        Ok(writes) => Ok(Registered { id, writes }),
        Err(e) => Err(e),
    }
}

/// The vertiport that a payload describes, stored under `id` at the time
/// `now`. A new vertiport hosts no vertipad.
pub open spec fn new_vertiport(
    p: RegisterVertiportPayload,
    ids: BasicsIdsView,
    id: Identifier,
    now: Timestamp,
) -> VertiportView {
    VertiportView {
        basics: BasicsView {
            id,
            name: text_of(p.name),
            group_id: ids.group_id,
            owner: ids.owner,
            whitelist: ids.whitelist,
            created_at: now,
            updated_at: None,
            status: p.status,
            schedule: named_schedule(p.schedule),
        },
        geo_location: p.geo_location@,
        description: text_of(p.description),
        vertipads: Seq::empty(),
    }
}

/// The writes that register a vertiport under `id`: one insert of the new
/// record. A payload with a malformed identifier is invalid.
pub open spec fn vertiport_registration(
    p: RegisterVertiportPayload,
    id: Identifier,
    now: Timestamp,
) -> Result<Seq<StoreWriteView>, RegistryError> {
    match checked_basics_ids(p.owner@, p.asset_group_id, p.whitelist@) {
        Err(e) => Err(e),
        Ok(ids) => Ok(seq![StoreWriteView::InsertVertiport(new_vertiport(p, ids, id, now))]),
    }
}

impl Vertiport {
    /// Builds the record of a new vertiport from a payload and the
    /// identifiers that were read from it.
    pub fn from_payload(p: RegisterVertiportPayload, ids: BasicsIds, id: Identifier, now: Timestamp) -> (r:
        Vertiport)
        ensures
            r@ == new_vertiport(p, ids@, id, now),
    {
        Vertiport {
            basics: Basics {
                id,
                name: p.name,
                group_id: ids.group_id,
                owner: ids.owner,
                whitelist: ids.whitelist,
                created_at: now,
                updated_at: None,
                status: p.status,
                schedule: take_schedule(p.schedule),
            },
            geo_location: p.geo_location,
            description: p.description,
            vertipads: Vec::new(),
        }
    }
}

/// Plans the registration of a vertiport under a given identifier.
pub fn register_vertiport_as(p: RegisterVertiportPayload, id: Identifier, now: Timestamp) -> (r:
    Result<Vec<StoreWrite>, RegistryError>)
    ensures
        plans(r, vertiport_registration(p, id, now)),
{
    let ids = match check_basics_ids(&p.owner, &p.asset_group_id, &p.whitelist) {
        Ok(v) => v,
        Err(e) => {
            return Err(e);
        },
    };
    let record = Vertiport::from_payload(p, ids, id, now);
    let mut writes: Vec<StoreWrite> = Vec::new();
    writes.push(StoreWrite::InsertVertiport(record));
    assert(views(writes@) =~= seq![StoreWriteView::InsertVertiport(record@)]);
    Ok(writes)
}

/// Registers a vertiport under a freshly drawn identifier.
pub fn register_vertiport(p: RegisterVertiportPayload, now: Timestamp) -> (r: Result<
    Registered,
    RegistryError,
>)
    ensures
        match checked_basics_ids(p.owner@, p.asset_group_id, p.whitelist@) {
            Ok(_) => r matches Ok(done) && is_version4(done.id.value) && vertiport_registration(
                p,
                done.id,
                now,
            ) == Ok::<Seq<StoreWriteView>, RegistryError>(views(done.writes@)),
            Err(e) => r matches Err(f) && f == e,
        },
{
    let id = fresh_identifier();
    match register_vertiport_as(p, id, now) {
        Ok(writes) => Ok(Registered { id, writes }),
        Err(e) => Err(e),
    }
}

/// The vertipad that a payload describes, stored under `id` and hosted by
/// the vertiport `port`.
pub open spec fn new_vertipad(p: RegisterVertipadPayload, port: Identifier, id: Identifier) -> VertipadView {
    VertipadView {
        id,
        name: text_of(p.name),
        geo_location: p.geo_location,
        vertiport_id: Some(port),
        enabled: p.enabled,
        occupied: p.occupied,
        schedule: text_of(p.schedule),
    }
}

/// A vertiport that hosts one more vertipad. A pad that it hosts already is
/// not listed twice.
pub open spec fn hosting(host: VertiportView, pad: Identifier) -> VertiportView {
    VertiportView { vertipads: with_member(host.vertipads, pad), ..host }
}

/// The vertiport that is to host a new vertipad: the payload is invalid
/// where it spells no vertiport, and the vertiport must exist.
pub open spec fn checked_vertipad_host(s: SnapshotView, p: RegisterVertipadPayload) -> Result<
    VertiportView,
    RegistryError,
> {
    match required_identifier(p.vertiport_id@) {
        Err(e) => Err(e),
        Ok(port) => found::<Vertiport>(s.vertiports, port),
    }
}

/// The writes that register a vertipad under `id`: the insert of the pad
/// first, then the update that lists the pad at its vertiport.
pub open spec fn vertipad_registration(s: SnapshotView, p: RegisterVertipadPayload, id: Identifier) -> Result<
    Seq<StoreWriteView>,
    RegistryError,
> {
    match checked_vertipad_host(s, p) {
        Err(e) => Err(e),
        Ok(host) => Ok(
            seq![
                StoreWriteView::InsertVertipad(new_vertipad(p, host.basics.id, id)),
                StoreWriteView::UpdateVertiport(hosting(host, id)),
            ],
        ),
    }
}

impl Vertipad {
    /// Builds the record of a new vertipad from a payload and the
    /// identifier of the vertiport that was read from it.
    pub fn from_payload(p: RegisterVertipadPayload, port: Identifier, id: Identifier) -> (r: Vertipad)
        ensures
            r@ == new_vertipad(p, port, id),
    {
        Vertipad {
            id,
            name: p.name,
            geo_location: p.geo_location,
            vertiport_id: Some(port),
            enabled: p.enabled,
            occupied: p.occupied,
            schedule: p.schedule,
        }
    }
}

impl Vertiport {
    /// Lists one more vertipad at this vertiport.
    pub fn host(self, pad: Identifier) -> (r: Vertiport)
        ensures
            r@ == hosting(self@, pad),
    {
        let Vertiport { basics, geo_location, description, vertipads } = self;
        let mut vertipads = vertipads;
        if !contains_id(&vertipads, pad) {
            vertipads.push(pad);
        }
        Vertiport { basics, geo_location, description, vertipads }
    }
}

/// Plans the registration of a vertipad under a given identifier.
pub fn register_vertipad_as(snapshot: &Snapshot, p: RegisterVertipadPayload, id: Identifier) -> (r:
    Result<Vec<StoreWrite>, RegistryError>)
    ensures
        plans(r, vertipad_registration(snapshot@, p, id)),
{
    let port = match read_required(&p.vertiport_id) {
        Ok(v) => v,
        Err(e) => {
            return Err(e);
        },
    };
    let host = match fetch(&snapshot.vertiports, port) {
        Ok(v) => v,
        Err(e) => {
            return Err(e);
        },
    };
    let pad = Vertipad::from_payload(p, port, id);
    let linked = host.host(id);
    let mut writes: Vec<StoreWrite> = Vec::new();
    writes.push(StoreWrite::InsertVertipad(pad));
    writes.push(StoreWrite::UpdateVertiport(linked));
    assert(views(writes@) =~= seq![
        StoreWriteView::InsertVertipad(pad@),
        StoreWriteView::UpdateVertiport(linked@),
    ]);
    Ok(writes)
}

/// Registers a vertipad under a freshly drawn identifier.
pub fn register_vertipad(snapshot: &Snapshot, p: RegisterVertipadPayload) -> (r: Result<
    Registered,
    RegistryError,
>)
    ensures
        match checked_vertipad_host(snapshot@, p) {
            Ok(_) => r matches Ok(done) && is_version4(done.id.value) && vertipad_registration(
                snapshot@,
                p,
                done.id,
            ) == Ok::<Seq<StoreWriteView>, RegistryError>(views(done.writes@)),
            Err(e) => r matches Err(f) && f == e,
        },
{
    let id = fresh_identifier();
    match register_vertipad_as(snapshot, p, id) {
        Ok(writes) => Ok(Registered { id, writes }),
        Err(e) => Err(e),
    }
}

/// The group that a payload describes, stored under `id` at the time `now`.
/// A new group is lent to nobody.
pub open spec fn new_group(
    p: RegisterAssetGroupPayload,
    owner: Identifier,
    assets: Seq<Identifier>,
    id: Identifier,
    now: Timestamp,
) -> AssetGroupView {
    AssetGroupView {
        id,
        name: text_of(p.name),
        owner,
        created_at: now,
        updated_at: None,
        delegatee: None,
        assets,
    }
}

/// The identifiers in a request to register a group: its owner and its
/// members. The payload is invalid where one of them spells no identifier;
/// a member that is named twice is a member once.
pub open spec fn checked_group_ids(p: RegisterAssetGroupPayload) -> Result<
    (Identifier, Seq<Identifier>),
    RegistryError,
> {
    match required_identifier(p.owner@) {
        Err(e) => Err(e),
        Ok(owner) => match identifier_set(p.assets@) {
            Err(e) => Err(e),
            Ok(assets) => Ok((owner, assets)),
        },
    }
}

/// The writes that register a group under `id`: one insert of the new record.
pub open spec fn group_registration(p: RegisterAssetGroupPayload, id: Identifier, now: Timestamp) -> Result<
    Seq<StoreWriteView>,
    RegistryError,
> {
    match checked_group_ids(p) {
        Err(e) => Err(e),
        Ok((owner, assets)) => Ok(
            seq![StoreWriteView::InsertAssetGroup(new_group(p, owner, assets, id, now))],
        ),
    }
}

impl AssetGroup {
    /// Builds the record of a new group from a payload and the identifiers
    /// that were read from it.
    pub fn from_payload(
        p: RegisterAssetGroupPayload,
        owner: Identifier,
        assets: Vec<Identifier>,
        id: Identifier,
        now: Timestamp,
    ) -> (r: AssetGroup)
        ensures
            r@ == new_group(p, owner, assets@, id, now),
    {
        AssetGroup {
            id,
            name: p.name,
            owner,
            created_at: now,
            updated_at: None,
            delegatee: None,
            assets,
        }
    }
}

/// Plans the registration of a group under a given identifier.
pub fn register_asset_group_as(p: RegisterAssetGroupPayload, id: Identifier, now: Timestamp) -> (r:
    Result<Vec<StoreWrite>, RegistryError>)
    ensures
        plans(r, group_registration(p, id, now)),
{
    let owner = match read_required(&p.owner) {
        Ok(v) => v,
        Err(e) => {
            return Err(e);
        },
    };
    let assets = match read_set(&p.assets) {
        Ok(v) => v,
        Err(e) => {
            return Err(e);
        },
    };
    let record = AssetGroup::from_payload(p, owner, assets, id, now);
    let mut writes: Vec<StoreWrite> = Vec::new();
    writes.push(StoreWrite::InsertAssetGroup(record));
    assert(views(writes@) =~= seq![StoreWriteView::InsertAssetGroup(record@)]);
    Ok(writes)
}

/// Registers a group under a freshly drawn identifier.
pub fn register_asset_group(p: RegisterAssetGroupPayload, now: Timestamp) -> (r: Result<
    Registered,
    RegistryError,
>)
    ensures
        match checked_group_ids(p) {
            Ok(_) => r matches Ok(done) && is_version4(done.id.value) && group_registration(
                p,
                done.id,
                now,
            ) == Ok::<Seq<StoreWriteView>, RegistryError>(views(done.writes@)),
            Err(e) => r matches Err(f) && f == e,
        },
{
    let id = fresh_identifier();
    match register_asset_group_as(p, id, now) {
        Ok(writes) => Ok(Registered { id, writes }),
        Err(e) => Err(e),
    }
}

} // verus!
