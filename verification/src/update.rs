//! Masked partial updates: what a request may change is named in its mask,
//! and nothing else of the entity is touched.

use crate::entity::{
    text_of, Aircraft, AircraftView, AssetGroup, AssetGroupView, Basics, BasicsView, GeoPoint,
    GeoPolygon, Timestamp, Vertipad, VertipadView, Vertiport, VertiportView,
};
use crate::error::{yields, RegistryError};
use crate::group::{add_members, with_members};
use crate::identifier::{
    identifier_of, identifiers_of, parse_identifier, parse_identifiers, Identifier,
};
use crate::mask::{
    mask_contains, mask_of, parse_mask, AircraftField, AssetGroupField, VertipadField,
    VertiportField,
};
use crate::types::{
    UpdateAircraftPayload, UpdateAssetGroupPayload, UpdateVertipadPayload, UpdateVertiportPayload,
};
use vstd::prelude::*;

verus! {

/// What a request says of a field that can hold nothing.
#[derive(Debug, PartialEq, Eq)]
pub enum FieldChange<T> {
    /// The request does not speak of the field.
    Omitted,
    /// The field is to hold nothing.
    SetNull,
    /// The field is to hold this value.
    SetValue(T),
}

impl<T> FieldChange<T> {
    /// The change that a nested option stands for: no option is no word of
    /// the field, the inner option is the value that the field is to hold.
    pub open spec fn of(o: Option<Option<T>>) -> FieldChange<T> {
        match o {
            None => FieldChange::Omitted,
            Some(None) => FieldChange::SetNull,
            Some(Some(v)) => FieldChange::SetValue(v),
        }
    }

    /// Reads a change from a nested option.
    pub fn from_nested(o: Option<Option<T>>) -> (r: FieldChange<T>)
        ensures
            r == Self::of(o),
    {
        match o {
            None => FieldChange::Omitted,
            Some(None) => FieldChange::SetNull,
            Some(Some(v)) => FieldChange::SetValue(v),
        }
    }
}

/// A change of a text, with the text as its characters.
pub open spec fn text_change(c: FieldChange<String>) -> FieldChange<Seq<char>> {
    match c {
        FieldChange::Omitted => FieldChange::Omitted,
        FieldChange::SetNull => FieldChange::SetNull,
        FieldChange::SetValue(s) => FieldChange::SetValue(s@),
    }
}

/// The value of a field that can hold nothing after an update: where the
/// mask names the field, what the request says of it, else the prior value.
pub open spec fn changed<F, T>(mask: Seq<F>, tag: F, change: FieldChange<T>, prior: Option<T>) -> Option<T> {
    if mask.contains(tag) {
        match change {
            FieldChange::Omitted => prior,
            FieldChange::SetNull => None,
            FieldChange::SetValue(v) => Some(v),
        }
    } else {
        prior
    }
}

fn apply_change<T>(masked: bool, given: FieldChange<T>, prior: Option<T>) -> (r: Option<T>)
    ensures
        r == (if masked {
            match given {
                FieldChange::Omitted => prior,
                FieldChange::SetNull => None,
                FieldChange::SetValue(v) => Some(v),
            }
        } else {
            prior
        }),
{
    if masked {
        match given {
            FieldChange::Omitted => prior,
            FieldChange::SetNull => None,
            FieldChange::SetValue(v) => Some(v),
        }
    } else {
        prior
    }
}

/// The value of a field after an update: the given value where the mask
/// names the field and the request holds a value for it, else the prior one.
pub open spec fn chosen<F, T>(mask: Seq<F>, tag: F, given: Option<T>, prior: T) -> T {
    if mask.contains(tag) && given is Some {
        given.unwrap()
    } else {
        prior
    }
}

/// As [`chosen`], for a field that can hold nothing and for which a request
/// can only name a value.
pub open spec fn chosen_some<F, T>(mask: Seq<F>, tag: F, given: Option<T>, prior: Option<T>) -> Option<T> {
    if mask.contains(tag) && given is Some {
        given
    } else {
        prior
    }
}

fn pick<T>(masked: bool, given: Option<T>, prior: T) -> (r: T)
    ensures
        r == (if masked && given is Some {
            given.unwrap()
        } else {
            prior
        }),
{
    if masked {
        match given {
            Some(v) => v,
            None => prior,
        }
    } else {
        prior
    }
}

fn pick_some<T>(masked: bool, given: Option<T>, prior: Option<T>) -> (r: Option<T>)
    ensures
        r == (if masked && given is Some {
            given
        } else {
            prior
        }),
{
    if masked {
        match given {
            Some(v) => Some(v),
            None => prior,
        }
    } else {
        prior
    }
}

/// The identifier that a request names for a field: none where the mask
/// leaves the field out or the request holds no value for it, and an
/// `InvalidFormat` where the value that counts is no identifier.
pub open spec fn masked_identifier(masked: bool, given: Option<String>) -> Result<
    Option<Identifier>,
    RegistryError,
> {
    if masked && given is Some {
        match identifier_of(given.unwrap()@) {
            Ok(id) => Ok(Some(id)),
            Err(e) => Err(e),
        }
    } else {
        Ok(None)
    }
}

/// As [`masked_identifier`], for a field that a request can also clear.
pub open spec fn masked_identifier_change(masked: bool, given: Option<Option<String>>) -> Result<
    FieldChange<Identifier>,
    RegistryError,
> {
    if masked {
        match given {
            Some(Some(text)) => match identifier_of(text@) {
                Ok(id) => Ok(FieldChange::SetValue(id)),
                Err(e) => Err(e),
            },
            Some(None) => Ok(FieldChange::SetNull),
            None => Ok(FieldChange::Omitted),
        }
    } else {
        Ok(FieldChange::Omitted)
    }
}

fn read_masked_identifier(masked: bool, given: &Option<String>) -> (r: Result<
    Option<Identifier>,
    RegistryError,
>)
    ensures
        r == masked_identifier(masked, *given),
{
    if masked {
        match given {
            Some(text) => match parse_identifier(text.as_str()) {
                Ok(id) => Ok(Some(id)),
                Err(e) => Err(e),
            },
            None => Ok(None),
        }
    } else {
        Ok(None)
    }
}

fn read_masked_identifier_change(masked: bool, given: &Option<Option<String>>) -> (r: Result<
    FieldChange<Identifier>,
    RegistryError,
>)
    ensures
        r == masked_identifier_change(masked, *given),
{
    if masked {
        match given {
            Some(Some(text)) => match parse_identifier(text.as_str()) {
                Ok(id) => Ok(FieldChange::SetValue(id)),
                Err(e) => Err(e),
            },
            Some(None) => Ok(FieldChange::SetNull),
            None => Ok(FieldChange::Omitted),
        }
    } else {
        Ok(FieldChange::Omitted)
    }
}

/// An update of an aircraft whose identifiers and mask have been checked.
#[derive(Debug, PartialEq, Eq)]
pub struct AircraftUpdate {
    /// The aircraft to update.
    pub id: Identifier,
    pub mask: Vec<AircraftField>,
    pub vehicle_model_id: Option<Identifier>,
    pub last_vertiport_id: Option<Identifier>,
    pub serial_number: Option<String>,
    pub registration_number: Option<String>,
    pub description: FieldChange<String>,
    pub asset_group_id: FieldChange<Identifier>,
    pub schedule: FieldChange<String>,
    pub last_maintenance: FieldChange<String>,
    pub next_maintenance: FieldChange<String>,
}

/// The view of an [`AircraftUpdate`].
pub ghost struct AircraftUpdateView {
    pub id: Identifier,
    pub mask: Seq<AircraftField>,
    pub vehicle_model_id: Option<Identifier>,
    pub last_vertiport_id: Option<Identifier>,
    pub serial_number: Option<Seq<char>>,
    pub registration_number: Option<Seq<char>>,
    pub description: FieldChange<Seq<char>>,
    pub asset_group_id: FieldChange<Identifier>,
    pub schedule: FieldChange<Seq<char>>,
    pub last_maintenance: FieldChange<Seq<char>>,
    pub next_maintenance: FieldChange<Seq<char>>,
}

impl View for AircraftUpdate {
    type V = AircraftUpdateView;

    open spec fn view(&self) -> AircraftUpdateView {
        AircraftUpdateView {
            id: self.id,
            mask: self.mask@,
            vehicle_model_id: self.vehicle_model_id,
            last_vertiport_id: self.last_vertiport_id,
            serial_number: text_of(self.serial_number),
            registration_number: text_of(self.registration_number),
            description: text_change(self.description),
            asset_group_id: self.asset_group_id,
            schedule: text_change(self.schedule),
            last_maintenance: text_change(self.last_maintenance),
            next_maintenance: text_change(self.next_maintenance),
        }
    }
}

/// What a request to update an aircraft asks for, once checked: the
/// identifier of the aircraft must be well-formed, the mask must be a list
/// of updatable fields, and so must each identifier that the mask lets in.
/// An identifier that the mask leaves out is not looked at.
pub open spec fn checked_aircraft_update(p: UpdateAircraftPayload) -> Result<
    AircraftUpdateView,
    RegistryError,
> {
    match identifier_of(p.id@) {
        Err(e) => Err(e),
        Ok(id) => match mask_of::<AircraftField>(p.mask@) {
            Err(e) => Err(e),
            Ok(mask) => match masked_identifier(
                mask.contains(AircraftField::VehicleModelId),
                p.vehicle_model_id,
            ) {
                Err(e) => Err(e),
                Ok(model) => match masked_identifier(
                    mask.contains(AircraftField::LastVertiportId),
                    p.last_vertiport_id,
                ) {
                    Err(e) => Err(e),
                    Ok(port) => match masked_identifier_change(
                        mask.contains(AircraftField::AssetGroupId),
                        p.asset_group_id,
                    ) {
                        Err(e) => Err(e),
                        Ok(group) => Ok(
                            AircraftUpdateView {
                                id,
                                mask,
                                vehicle_model_id: model,
                                last_vertiport_id: port,
                                serial_number: text_of(p.serial_number),
                                registration_number: text_of(p.registration_number),
                                description: text_change(FieldChange::of(p.description)),
                                asset_group_id: group,
                                schedule: text_change(FieldChange::of(p.schedule)),
                                last_maintenance: text_change(FieldChange::of(p.last_maintenance)),
                                next_maintenance: text_change(FieldChange::of(p.next_maintenance)),
                            },
                        ),
                    },
                },
            },
        },
    }
}

/// Checks a request to update an aircraft.
pub fn check_aircraft_update(p: UpdateAircraftPayload) -> (r: Result<AircraftUpdate, RegistryError>)
    ensures
        yields(r, checked_aircraft_update(p)),
{
    let id = match parse_identifier(p.id.as_str()) {
        Ok(id) => id,
        Err(e) => {
            return Err(e);
        },
    };
    let mask = match parse_mask::<AircraftField>(&p.mask) {
        Ok(mask) => mask,
        Err(e) => {
            return Err(e);
        },
    };
    let model = match read_masked_identifier(
        mask_contains(&mask, AircraftField::VehicleModelId),
        &p.vehicle_model_id,
    ) {
        Ok(v) => v,
        Err(e) => {
            return Err(e);
        },
    };
    let port = match read_masked_identifier(
        mask_contains(&mask, AircraftField::LastVertiportId),
        &p.last_vertiport_id,
    ) {
        Ok(v) => v,
        Err(e) => {
            return Err(e);
        },
    };
    let group = match read_masked_identifier_change(
        mask_contains(&mask, AircraftField::AssetGroupId),
        &p.asset_group_id,
    ) {
        Ok(v) => v,
        Err(e) => {
            return Err(e);
        },
    };
    Ok(
        AircraftUpdate {
            id,
            mask,
            vehicle_model_id: model,
            last_vertiport_id: port,
            serial_number: p.serial_number,
            registration_number: p.registration_number,
            description: FieldChange::from_nested(p.description),
            asset_group_id: group,
            schedule: FieldChange::from_nested(p.schedule),
            last_maintenance: FieldChange::from_nested(p.last_maintenance),
            next_maintenance: FieldChange::from_nested(p.next_maintenance),
        },
    )
}

/// An aircraft after an update at the time `now`.
pub open spec fn updated_aircraft(e: AircraftView, u: AircraftUpdateView, now: Timestamp) -> AircraftView {
    AircraftView {
        basics: BasicsView {
            group_id: changed(u.mask, AircraftField::AssetGroupId, u.asset_group_id, e.basics.group_id),
            schedule: changed(u.mask, AircraftField::Schedule, u.schedule, e.basics.schedule),
            updated_at: Some(now),
            ..e.basics
        },
        vehicle_model_id: chosen(
            u.mask,
            AircraftField::VehicleModelId,
            u.vehicle_model_id,
            e.vehicle_model_id,
        ),
        serial_number: chosen(u.mask, AircraftField::SerialNumber, u.serial_number, e.serial_number),
        registration_number: chosen(
            u.mask,
            AircraftField::RegistrationNumber,
            u.registration_number,
            e.registration_number,
        ),
        description: changed(u.mask, AircraftField::Description, u.description, e.description),
        last_maintenance: changed(
            u.mask,
            AircraftField::LastMaintenance,
            u.last_maintenance,
            e.last_maintenance,
        ),
        next_maintenance: changed(
            u.mask,
            AircraftField::NextMaintenance,
            u.next_maintenance,
            e.next_maintenance,
        ),
        last_vertiport_id: chosen_some(
            u.mask,
            AircraftField::LastVertiportId,
            u.last_vertiport_id,
            e.last_vertiport_id,
        ),
        ..e
    }
}

impl Aircraft {
    /// Applies a checked update and stamps the time of the update.
    pub fn apply_update(self, update: AircraftUpdate, now: Timestamp) -> (r: Aircraft)
        ensures
            r@ == updated_aircraft(self@, update@, now),
    {
        let mask = &update.mask;
        let has_model = mask_contains(mask, AircraftField::VehicleModelId);
        let has_port = mask_contains(mask, AircraftField::LastVertiportId);
        let has_serial = mask_contains(mask, AircraftField::SerialNumber);
        let has_registration = mask_contains(mask, AircraftField::RegistrationNumber);
        let has_description = mask_contains(mask, AircraftField::Description);
        let has_group = mask_contains(mask, AircraftField::AssetGroupId);
        let has_schedule = mask_contains(mask, AircraftField::Schedule);
        let has_last = mask_contains(mask, AircraftField::LastMaintenance);
        let has_next = mask_contains(mask, AircraftField::NextMaintenance);
        let Aircraft {
            basics,
            vehicle_model_id,
            manufacturer,
            serial_number,
            registration_number,
            description,
            max_payload_kg,
            max_range_km,
            last_maintenance,
            next_maintenance,
            last_vertiport_id,
        } = self;
        let Basics { id, name, group_id, owner, whitelist, created_at, updated_at: _, status, schedule } =
            basics;
        Aircraft {
            basics: Basics {
                id,
                name,
                group_id: apply_change(has_group, update.asset_group_id, group_id),
                owner,
                whitelist,
                created_at,
                updated_at: Some(now),
                status,
                schedule: apply_change(has_schedule, update.schedule, schedule),
            },
            vehicle_model_id: pick(has_model, update.vehicle_model_id, vehicle_model_id),
            manufacturer,
            serial_number: pick(has_serial, update.serial_number, serial_number),
            registration_number: pick(
                has_registration,
                update.registration_number,
                registration_number,
            ),
            description: apply_change(has_description, update.description, description),
            max_payload_kg,
            max_range_km,
            last_maintenance: apply_change(has_last, update.last_maintenance, last_maintenance),
            next_maintenance: apply_change(has_next, update.next_maintenance, next_maintenance),
            last_vertiport_id: pick_some(has_port, update.last_vertiport_id, last_vertiport_id),
        }
    }
}

/// Whether two aircraft agree on the field that a tag names.
pub open spec fn aircraft_field_kept(a: AircraftView, b: AircraftView, f: AircraftField) -> bool {
    match f {
        AircraftField::VehicleModelId => a.vehicle_model_id == b.vehicle_model_id,
        AircraftField::LastVertiportId => a.last_vertiport_id == b.last_vertiport_id,
        AircraftField::SerialNumber => a.serial_number == b.serial_number,
        AircraftField::RegistrationNumber => a.registration_number == b.registration_number,
        AircraftField::Description => a.description == b.description,
        AircraftField::AssetGroupId => a.basics.group_id == b.basics.group_id,
        AircraftField::Schedule => a.basics.schedule == b.basics.schedule,
        AircraftField::LastMaintenance => a.last_maintenance == b.last_maintenance,
        AircraftField::NextMaintenance => a.next_maintenance == b.next_maintenance,
    }
}

/// Whether two aircraft agree on everything that no update can change.
pub open spec fn aircraft_fixed_kept(a: AircraftView, b: AircraftView) -> bool {
    &&& a.basics.id == b.basics.id
    &&& a.basics.name == b.basics.name
    &&& a.basics.owner == b.basics.owner
    &&& a.basics.whitelist == b.basics.whitelist
    &&& a.basics.created_at == b.basics.created_at
    &&& a.basics.status == b.basics.status
    &&& a.manufacturer == b.manufacturer
    &&& a.max_payload_kg == b.max_payload_kg
    &&& a.max_range_km == b.max_range_km
}

/// Whether a request holds a value for the field that a tag names.
pub open spec fn aircraft_field_given(u: AircraftUpdateView, f: AircraftField) -> bool {
    match f {
        AircraftField::VehicleModelId => u.vehicle_model_id is Some,
        AircraftField::LastVertiportId => u.last_vertiport_id is Some,
        AircraftField::SerialNumber => u.serial_number is Some,
        AircraftField::RegistrationNumber => u.registration_number is Some,
        AircraftField::Description => u.description !is Omitted,
        AircraftField::AssetGroupId => u.asset_group_id !is Omitted,
        AircraftField::Schedule => u.schedule !is Omitted,
        AircraftField::LastMaintenance => u.last_maintenance !is Omitted,
        AircraftField::NextMaintenance => u.next_maintenance !is Omitted,
    }
}

/// Applying the same update of an aircraft a second time changes nothing.
pub proof fn lemma_aircraft_update_idempotent(e: AircraftView, u: AircraftUpdateView, now: Timestamp)
    ensures
        updated_aircraft(updated_aircraft(e, u, now), u, now) == updated_aircraft(e, u, now),
{
}

/// Applying the same update of an aircraft again at a later time changes
/// the time of the last update and nothing else.
pub proof fn lemma_aircraft_update_repeated_later(
    e: AircraftView,
    u: AircraftUpdateView,
    first: Timestamp,
    second: Timestamp,
)
    ensures
        updated_aircraft(updated_aircraft(e, u, first), u, second) == updated_aircraft(e, u, second),
{
}

/// An update of an aircraft leaves every field alone that its mask does not
/// name or for which it holds no value, whatever else the request holds, and
/// it leaves alone what no update can change.
pub proof fn lemma_aircraft_update_respects_mask(
    e: AircraftView,
    u: AircraftUpdateView,
    now: Timestamp,
    f: AircraftField,
)
    requires
        !u.mask.contains(f) || !aircraft_field_given(u, f),
    ensures
        aircraft_field_kept(e, updated_aircraft(e, u, now), f),
        aircraft_fixed_kept(e, updated_aircraft(e, u, now)),
{
}

/// The outer boundary of an area that may be omitted.
pub open spec fn area_of(o: Option<GeoPolygon>) -> Option<Seq<GeoPoint>> {
    match o {
        Some(area) => Some(area@),
        None => None,
    }
}

/// An update of a vertiport whose identifier and mask have been checked.
#[derive(Debug, PartialEq, Eq)]
pub struct VertiportUpdate {
    /// The vertiport to update.
    pub id: Identifier,
    pub mask: Vec<VertiportField>,
    pub name: Option<String>,
    pub description: Option<String>,
    pub geo_location: Option<GeoPolygon>,
    pub schedule: FieldChange<String>,
}

/// The view of a [`VertiportUpdate`].
pub ghost struct VertiportUpdateView {
    pub id: Identifier,
    pub mask: Seq<VertiportField>,
    pub name: Option<Seq<char>>,
    pub description: Option<Seq<char>>,
    pub geo_location: Option<Seq<GeoPoint>>,
    pub schedule: FieldChange<Seq<char>>,
}

impl View for VertiportUpdate {
    type V = VertiportUpdateView;

    open spec fn view(&self) -> VertiportUpdateView {
        VertiportUpdateView {
            id: self.id,
            mask: self.mask@,
            name: text_of(self.name),
            description: text_of(self.description),
            geo_location: area_of(self.geo_location),
            schedule: text_change(self.schedule),
        }
    }
}

/// What a request to update a vertiport asks for, once checked: the
/// identifier of the vertiport must be well-formed and the mask must be a
/// list of updatable fields.
pub open spec fn checked_vertiport_update(p: UpdateVertiportPayload) -> Result<
    VertiportUpdateView,
    RegistryError,
> {
    match identifier_of(p.id@) {
        Err(e) => Err(e),
        Ok(id) => match mask_of::<VertiportField>(p.mask@) {
            Err(e) => Err(e),
            Ok(mask) => Ok(
                VertiportUpdateView {
                    id,
                    mask,
                    name: text_of(p.name),
                    description: text_of(p.description),
                    geo_location: area_of(p.geo_location),
                    schedule: text_change(FieldChange::of(p.schedule)),
                },
            ),
        },
    }
}

/// Checks a request to update a vertiport.
pub fn check_vertiport_update(p: UpdateVertiportPayload) -> (r: Result<
    VertiportUpdate,
    RegistryError,
>)
    ensures
        yields(r, checked_vertiport_update(p)),
{
    let id = match parse_identifier(p.id.as_str()) {
        Ok(id) => id,
        Err(e) => {
            return Err(e);
        },
    };
    let mask = match parse_mask::<VertiportField>(&p.mask) {
        Ok(mask) => mask,
        Err(e) => {
            return Err(e);
        },
    };
    Ok(
        VertiportUpdate {
            id,
            mask,
            name: p.name,
            description: p.description,
            geo_location: p.geo_location,
            schedule: FieldChange::from_nested(p.schedule),
        },
    )
}

/// A vertiport after an update at the time `now`.
pub open spec fn updated_vertiport(e: VertiportView, u: VertiportUpdateView, now: Timestamp) -> VertiportView {
    VertiportView {
        basics: BasicsView {
            name: chosen_some(u.mask, VertiportField::Name, u.name, e.basics.name),
            schedule: changed(u.mask, VertiportField::Schedule, u.schedule, e.basics.schedule),
            updated_at: Some(now),
            ..e.basics
        },
        geo_location: chosen(u.mask, VertiportField::GeoLocation, u.geo_location, e.geo_location),
        description: chosen_some(u.mask, VertiportField::Description, u.description, e.description),
        ..e
    }
}

impl Vertiport {
    /// Applies a checked update and stamps the time of the update.
    pub fn apply_update(self, update: VertiportUpdate, now: Timestamp) -> (r: Vertiport)
        ensures
            r@ == updated_vertiport(self@, update@, now),
    {
        let mask = &update.mask;
        let has_name = mask_contains(mask, VertiportField::Name);
        let has_description = mask_contains(mask, VertiportField::Description);
        let has_area = mask_contains(mask, VertiportField::GeoLocation);
        let has_schedule = mask_contains(mask, VertiportField::Schedule);
        let Vertiport { basics, geo_location, description, vertipads } = self;
        let Basics { id, name, group_id, owner, whitelist, created_at, updated_at: _, status, schedule } =
            basics;
        Vertiport {
            basics: Basics {
                id,
                name: pick_some(has_name, update.name, name),
                group_id,
                owner,
                whitelist,
                created_at,
                updated_at: Some(now),
                status,
                schedule: apply_change(has_schedule, update.schedule, schedule),
            },
            geo_location: pick(has_area, update.geo_location, geo_location),
            description: pick_some(has_description, update.description, description),
            vertipads,
        }
    }
}

/// Whether two vertiports agree on the field that a tag names.
pub open spec fn vertiport_field_kept(a: VertiportView, b: VertiportView, f: VertiportField) -> bool {
    match f {
        VertiportField::Name => a.basics.name == b.basics.name,
        VertiportField::Description => a.description == b.description,
        VertiportField::GeoLocation => a.geo_location == b.geo_location,
        VertiportField::Schedule => a.basics.schedule == b.basics.schedule,
    }
}

/// Whether two vertiports agree on everything that no update can change.
pub open spec fn vertiport_fixed_kept(a: VertiportView, b: VertiportView) -> bool {
    &&& a.basics.id == b.basics.id
    &&& a.basics.group_id == b.basics.group_id
    &&& a.basics.owner == b.basics.owner
    &&& a.basics.whitelist == b.basics.whitelist
    &&& a.basics.created_at == b.basics.created_at
    &&& a.basics.status == b.basics.status
    &&& a.vertipads == b.vertipads
}

/// Whether a request holds a value for the field that a tag names.
pub open spec fn vertiport_field_given(u: VertiportUpdateView, f: VertiportField) -> bool {
    match f {
        VertiportField::Name => u.name is Some,
        VertiportField::Description => u.description is Some,
        VertiportField::GeoLocation => u.geo_location is Some,
        VertiportField::Schedule => u.schedule !is Omitted,
    }
}

/// Applying the same update of a vertiport a second time changes nothing.
pub proof fn lemma_vertiport_update_idempotent(
    e: VertiportView,
    u: VertiportUpdateView,
    now: Timestamp,
)
    ensures
        updated_vertiport(updated_vertiport(e, u, now), u, now) == updated_vertiport(e, u, now),
{
}

/// An update of a vertiport leaves every field alone that its mask does not
/// name or for which it holds no value, and what no update can change.
pub proof fn lemma_vertiport_update_respects_mask(
    e: VertiportView,
    u: VertiportUpdateView,
    now: Timestamp,
    f: VertiportField,
)
    requires
        !u.mask.contains(f) || !vertiport_field_given(u, f),
    ensures
        vertiport_field_kept(e, updated_vertiport(e, u, now), f),
        vertiport_fixed_kept(e, updated_vertiport(e, u, now)),
{
}

/// An update of a vertipad whose identifiers and mask have been checked.
#[derive(Debug, PartialEq, Eq)]
pub struct VertipadUpdate {
    /// The vertipad to update.
    pub id: Identifier,
    pub mask: Vec<VertipadField>,
    pub vertiport_id: Option<Identifier>,
    pub name: Option<String>,
    pub geo_location: Option<GeoPoint>,
    pub enabled: Option<bool>,
    pub occupied: Option<bool>,
    pub schedule: FieldChange<String>,
}

/// The view of a [`VertipadUpdate`].
pub ghost struct VertipadUpdateView {
    pub id: Identifier,
    pub mask: Seq<VertipadField>,
    pub vertiport_id: Option<Identifier>,
    pub name: Option<Seq<char>>,
    pub geo_location: Option<GeoPoint>,
    pub enabled: Option<bool>,
    pub occupied: Option<bool>,
    pub schedule: FieldChange<Seq<char>>,
}

impl View for VertipadUpdate {
    type V = VertipadUpdateView;

    open spec fn view(&self) -> VertipadUpdateView {
        VertipadUpdateView {
            id: self.id,
            mask: self.mask@,
            vertiport_id: self.vertiport_id,
            name: text_of(self.name),
            geo_location: self.geo_location,
            enabled: self.enabled,
            occupied: self.occupied,
            schedule: text_change(self.schedule),
        }
    }
}

/// What a request to update a vertipad asks for, once checked: the
/// identifier of the vertipad must be well-formed, the mask must be a list of
/// updatable fields, and the identifier of the vertiport must be well-formed
/// where the mask lets it in.
pub open spec fn checked_vertipad_update(p: UpdateVertipadPayload) -> Result<
    VertipadUpdateView,
    RegistryError,
> {
    match identifier_of(p.id@) {
        Err(e) => Err(e),
        Ok(id) => match mask_of::<VertipadField>(p.mask@) {
            Err(e) => Err(e),
            Ok(mask) => match masked_identifier(
                mask.contains(VertipadField::VertiportId),
                p.vertiport_id,
            ) {
                Err(e) => Err(e),
                Ok(port) => Ok(
                    VertipadUpdateView {
                        id,
                        mask,
                        vertiport_id: port,
                        name: text_of(p.name),
                        geo_location: p.geo_location,
                        enabled: p.enabled,
                        occupied: p.occupied,
                        schedule: text_change(FieldChange::of(p.schedule)),
                    },
                ),
            },
        },
    }
}

/// Checks a request to update a vertipad.
pub fn check_vertipad_update(p: UpdateVertipadPayload) -> (r: Result<VertipadUpdate, RegistryError>)
    ensures
        yields(r, checked_vertipad_update(p)),
{
    let id = match parse_identifier(p.id.as_str()) {
        Ok(id) => id,
        Err(e) => {
            return Err(e);
        },
    };
    let mask = match parse_mask::<VertipadField>(&p.mask) {
        Ok(mask) => mask,
        Err(e) => {
            return Err(e);
        },
    };
    let port = match read_masked_identifier(
        mask_contains(&mask, VertipadField::VertiportId),
        &p.vertiport_id,
    ) {
        Ok(v) => v,
        Err(e) => {
            return Err(e);
        },
    };
    Ok(
        VertipadUpdate {
            id,
            mask,
            vertiport_id: port,
            name: p.name,
            geo_location: p.geo_location,
            enabled: p.enabled,
            occupied: p.occupied,
            schedule: FieldChange::from_nested(p.schedule),
        },
    )
}

/// A vertipad after an update.
pub open spec fn updated_vertipad(e: VertipadView, u: VertipadUpdateView) -> VertipadView {
    VertipadView {
        id: e.id,
        name: chosen_some(u.mask, VertipadField::Name, u.name, e.name),
        geo_location: chosen(u.mask, VertipadField::GeoLocation, u.geo_location, e.geo_location),
        vertiport_id: chosen_some(u.mask, VertipadField::VertiportId, u.vertiport_id, e.vertiport_id),
        enabled: chosen(u.mask, VertipadField::Enabled, u.enabled, e.enabled),
        occupied: chosen(u.mask, VertipadField::Occupied, u.occupied, e.occupied),
        schedule: changed(u.mask, VertipadField::Schedule, u.schedule, e.schedule),
    }
}

impl Vertipad {
    /// Applies a checked update.
    pub fn apply_update(self, update: VertipadUpdate) -> (r: Vertipad)
        ensures
            r@ == updated_vertipad(self@, update@),
    {
        let mask = &update.mask;
        let has_port = mask_contains(mask, VertipadField::VertiportId);
        let has_name = mask_contains(mask, VertipadField::Name);
        let has_point = mask_contains(mask, VertipadField::GeoLocation);
        let has_enabled = mask_contains(mask, VertipadField::Enabled);
        let has_occupied = mask_contains(mask, VertipadField::Occupied);
        let has_schedule = mask_contains(mask, VertipadField::Schedule);
        let Vertipad { id, name, geo_location, vertiport_id, enabled, occupied, schedule } = self;
        Vertipad {
            id,
            name: pick_some(has_name, update.name, name),
            geo_location: pick(has_point, update.geo_location, geo_location),
            vertiport_id: pick_some(has_port, update.vertiport_id, vertiport_id),
            enabled: pick(has_enabled, update.enabled, enabled),
            occupied: pick(has_occupied, update.occupied, occupied),
            schedule: apply_change(has_schedule, update.schedule, schedule),
        }
    }
}

/// Whether two vertipads agree on the field that a tag names.
pub open spec fn vertipad_field_kept(a: VertipadView, b: VertipadView, f: VertipadField) -> bool {
    match f {
        VertipadField::VertiportId => a.vertiport_id == b.vertiport_id,
        VertipadField::Name => a.name == b.name,
        VertipadField::GeoLocation => a.geo_location == b.geo_location,
        VertipadField::Enabled => a.enabled == b.enabled,
        VertipadField::Occupied => a.occupied == b.occupied,
        VertipadField::Schedule => a.schedule == b.schedule,
    }
}

/// Whether a request holds a value for the field that a tag names.
pub open spec fn vertipad_field_given(u: VertipadUpdateView, f: VertipadField) -> bool {
    match f {
        VertipadField::VertiportId => u.vertiport_id is Some,
        VertipadField::Name => u.name is Some,
        VertipadField::GeoLocation => u.geo_location is Some,
        VertipadField::Enabled => u.enabled is Some,
        VertipadField::Occupied => u.occupied is Some,
        VertipadField::Schedule => u.schedule !is Omitted,
    }
}

/// Applying the same update of a vertipad a second time changes nothing.
pub proof fn lemma_vertipad_update_idempotent(e: VertipadView, u: VertipadUpdateView)
    ensures
        updated_vertipad(updated_vertipad(e, u), u) == updated_vertipad(e, u),
{
}

/// An update of a vertipad leaves every field alone that its mask does not
/// name or for which it holds no value, and it never changes the identifier.
pub proof fn lemma_vertipad_update_respects_mask(
    e: VertipadView,
    u: VertipadUpdateView,
    f: VertipadField,
)
    requires
        !u.mask.contains(f) || !vertipad_field_given(u, f),
    ensures
        vertipad_field_kept(e, updated_vertipad(e, u), f),
        updated_vertipad(e, u).id == e.id,
{
}

/// An update of an asset group whose identifiers and mask have been checked.
#[derive(Debug, PartialEq, Eq)]
pub struct AssetGroupUpdate {
    /// The group to update.
    pub id: Identifier,
    pub mask: Vec<AssetGroupField>,
    pub name: FieldChange<String>,
    /// The members that the group is to have, as the request lists them.
    pub assets: Option<Vec<Identifier>>,
}

/// The items of a list that may be omitted.
pub open spec fn list_of(o: Option<Vec<Identifier>>) -> Option<Seq<Identifier>> {
    match o {
        Some(v) => Some(v@),
        None => None,
    }
}

/// The view of an [`AssetGroupUpdate`].
pub ghost struct AssetGroupUpdateView {
    pub id: Identifier,
    pub mask: Seq<AssetGroupField>,
    pub name: FieldChange<Seq<char>>,
    pub assets: Option<Seq<Identifier>>,
}

impl View for AssetGroupUpdate {
    type V = AssetGroupUpdateView;

    open spec fn view(&self) -> AssetGroupUpdateView {
        AssetGroupUpdateView {
            id: self.id,
            mask: self.mask@,
            name: text_change(self.name),
            assets: list_of(self.assets),
        }
    }
}

/// The members that a request names for a group: none where the mask leaves
/// the members out or the request lists none, and an `InvalidFormat` where
/// the list that counts holds a text that spells no identifier.
pub open spec fn masked_members(masked: bool, given: Option<Vec<String>>) -> Result<
    Option<Seq<Identifier>>,
    RegistryError,
> {
    if masked && given is Some {
        match identifiers_of(given.unwrap()@) {
            Some(ids) => Ok(Some(ids)),
            None => Err(RegistryError::InvalidFormat),
        }
    } else {
        Ok(None)
    }
}

/// What a request to update a group asks for, once checked: the identifier
/// of the group must be well-formed, the mask must be a list of updatable
/// fields, and so must each member where the mask lets the members in.
pub open spec fn checked_group_update(p: UpdateAssetGroupPayload) -> Result<
    AssetGroupUpdateView,
    RegistryError,
> {
    match identifier_of(p.id@) {
        Err(e) => Err(e),
        Ok(id) => match mask_of::<AssetGroupField>(p.mask@) {
            Err(e) => Err(e),
            Ok(mask) => match masked_members(mask.contains(AssetGroupField::Assets), p.assets) {
                Err(e) => Err(e),
                Ok(assets) => Ok(AssetGroupUpdateView { id, mask, name: text_change(FieldChange::of(p.name)), assets }),
            },
        },
    }
}

/// Checks a request to update a group.
pub fn check_group_update(p: UpdateAssetGroupPayload) -> (r: Result<AssetGroupUpdate, RegistryError>)
    ensures
        yields(r, checked_group_update(p)),
{
    let id = match parse_identifier(p.id.as_str()) {
        Ok(id) => id,
        Err(e) => {
            return Err(e);
        },
    };
    let mask = match parse_mask::<AssetGroupField>(&p.mask) {
        Ok(mask) => mask,
        Err(e) => {
            return Err(e);
        },
    };
    let assets = if mask_contains(&mask, AssetGroupField::Assets) {
        match &p.assets {
            Some(texts) => match parse_identifiers(texts) {
                Some(ids) => Some(ids),
                None => {
                    return Err(RegistryError::InvalidFormat);
                },
            },
            None => None,
        }
    } else {
        None
    };
    Ok(AssetGroupUpdate { id, mask, name: FieldChange::from_nested(p.name), assets })
}

/// A group after an update at the time `now`. Members that the request
/// lists twice are members once.
pub open spec fn updated_group(g: AssetGroupView, u: AssetGroupUpdateView, now: Timestamp) -> AssetGroupView {
    AssetGroupView {
        name: changed(u.mask, AssetGroupField::Name, u.name, g.name),
        assets: if u.mask.contains(AssetGroupField::Assets) && u.assets is Some {
            with_members(Seq::empty(), u.assets.unwrap())
        } else {
            g.assets
        },
        updated_at: Some(now),
        ..g
    }
}

impl AssetGroup {
    /// Applies a checked update and stamps the time of the update.
    pub fn apply_update(self, update: AssetGroupUpdate, now: Timestamp) -> (r: AssetGroup)
        ensures
            r@ == updated_group(self@, update@, now),
    {
        let mask = &update.mask;
        let has_name = mask_contains(mask, AssetGroupField::Name);
        let has_assets = mask_contains(mask, AssetGroupField::Assets);
        let AssetGroup { id, name, owner, created_at, updated_at: _, delegatee, assets } = self;
        let members = if has_assets {
            match &update.assets {
                Some(ids) => {
                    let mut out: Vec<Identifier> = Vec::new();
                    add_members(&mut out, ids);
                    out
                },
                None => assets,
            }
        } else {
            assets
        };
        AssetGroup {
            id,
            name: apply_change(has_name, update.name, name),
            owner,
            created_at,
            updated_at: Some(now),
            delegatee,
            assets: members,
        }
    }
}

/// Whether two groups agree on the field that a tag names.
pub open spec fn group_field_kept(a: AssetGroupView, b: AssetGroupView, f: AssetGroupField) -> bool {
    match f {
        AssetGroupField::Name => a.name == b.name,
        AssetGroupField::Assets => a.assets == b.assets,
    }
}

/// Whether two groups agree on everything that no update can change. Who
/// borrows a group is among it.
pub open spec fn group_fixed_kept(a: AssetGroupView, b: AssetGroupView) -> bool {
    &&& a.id == b.id
    &&& a.owner == b.owner
    &&& a.created_at == b.created_at
    &&& a.delegatee == b.delegatee
}

/// Whether a request holds a value for the field that a tag names.
pub open spec fn group_field_given(u: AssetGroupUpdateView, f: AssetGroupField) -> bool {
    match f {
        AssetGroupField::Name => u.name !is Omitted,
        AssetGroupField::Assets => u.assets is Some,
    }
}

/// Applying the same update of a group a second time changes nothing.
pub proof fn lemma_group_update_idempotent(g: AssetGroupView, u: AssetGroupUpdateView, now: Timestamp)
    ensures
        updated_group(updated_group(g, u, now), u, now) == updated_group(g, u, now),
{
}

/// An update of a group leaves every field alone that its mask does not
/// name or for which it holds no value, and what no update can change.
pub proof fn lemma_group_update_respects_mask(
    g: AssetGroupView,
    u: AssetGroupUpdateView,
    now: Timestamp,
    f: AssetGroupField,
)
    requires
        !u.mask.contains(f) || !group_field_given(u, f),
    ensures
        group_field_kept(g, updated_group(g, u, now), f),
        group_fixed_kept(g, updated_group(g, u, now)),
{
}

} // verus!
