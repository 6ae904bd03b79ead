//! The request payloads, as a transport layer hands them over: identifiers
//! are still texts, and nothing in them has been checked.

use crate::entity::{AssetStatus, GeoPoint, GeoPolygon, Quantity};
use vstd::prelude::*;

verus! {

/// Request to create an aircraft.
#[derive(Debug, Clone, PartialEq, Eq)]
pub struct RegisterAircraftPayload {
    /// Optional display name.
    pub name: Option<String>,
    /// The identifier of an asset group, if the aircraft is put in one.
    pub asset_group_id: Option<String>,
    /// Recurrence rule of the hours of availability.
    pub schedule: Option<Option<String>>,
    /// The identifier of the owning operator.
    pub owner: String,
    /// Identifiers of the operators that may use the aircraft.
    pub whitelist: Vec<String>,
    pub status: AssetStatus,
    pub manufacturer: String,
    /// The identifier of the aircraft's model.
    pub vehicle_model_id: String,
    /// The serial number given at the factory.
    pub serial_number: String,
    /// The registration number, such as the N number in the US.
    pub registration_number: String,
    pub description: Option<String>,
    pub max_payload_kg: Quantity,
    pub max_range_km: Quantity,
    /// Date of the last maintenance.
    pub last_maintenance: Option<String>,
    /// Date of the next planned maintenance.
    pub next_maintenance: Option<String>,
    /// The identifier of the vertiport where the aircraft last landed.
    pub last_vertiport_id: Option<String>,
}

/// Request to create a vertiport. A new vertiport hosts no vertipad yet.
#[derive(Debug, Clone, PartialEq, Eq)]
pub struct RegisterVertiportPayload {
    pub name: Option<String>,
    pub asset_group_id: Option<String>,
    pub schedule: Option<Option<String>>,
    pub owner: String,
    pub whitelist: Vec<String>,
    pub status: AssetStatus,
    pub geo_location: GeoPolygon,
    pub description: Option<String>,
}

/// Request to create a vertipad at a vertiport.
#[derive(Debug, Clone, PartialEq, Eq)]
pub struct RegisterVertipadPayload {
    pub name: Option<String>,
    /// The identifier of the vertiport that hosts the pad.
    pub vertiport_id: String,
    pub geo_location: GeoPoint,
    pub enabled: bool,
    pub occupied: bool,
    pub schedule: Option<String>,
}

/// Request to create an asset group.
#[derive(Debug, Clone, PartialEq, Eq)]
pub struct RegisterAssetGroupPayload {
    /// Optional name of the group.
    pub name: Option<String>,
    /// The identifier of the owning operator.
    pub owner: String,
    /// Identifiers of the member assets.
    pub assets: Vec<String>,
}

/// Request to update an aircraft.
#[derive(Debug, Clone, PartialEq, Eq)]
pub struct UpdateAircraftPayload {
    /// The identifier of the aircraft to update.
    pub id: String,
    pub vehicle_model_id: Option<String>,
    pub last_vertiport_id: Option<String>,
    pub serial_number: Option<String>,
    pub registration_number: Option<String>,
    pub description: Option<Option<String>>,
    pub asset_group_id: Option<Option<String>>,
    pub schedule: Option<Option<String>>,
    pub last_maintenance: Option<Option<String>>,
    pub next_maintenance: Option<Option<String>>,
    /// Names of the fields to update. A field that is given but not named
    /// here is ignored.
    pub mask: Vec<String>,
}

/// Request to update a vertiport.
#[derive(Debug, Clone, PartialEq, Eq)]
pub struct UpdateVertiportPayload {
    /// The identifier of the vertiport to update.
    pub id: String,
    pub name: Option<String>,
    pub description: Option<String>,
    pub geo_location: Option<GeoPolygon>,
    pub schedule: Option<Option<String>>,
    /// Names of the fields to update.
    pub mask: Vec<String>,
}

/// Request to update a vertipad.
#[derive(Debug, Clone, PartialEq, Eq)]
pub struct UpdateVertipadPayload {
    /// The identifier of the vertipad to update.
    pub id: String,
    /// The identifier of the vertiport that hosts the pad.
    pub vertiport_id: Option<String>,
    pub name: Option<String>,
    pub geo_location: Option<GeoPoint>,
    pub enabled: Option<bool>,
    pub occupied: Option<bool>,
    pub schedule: Option<Option<String>>,
    /// Names of the fields to update.
    pub mask: Vec<String>,
}

/// Request to update an asset group. Who borrows the group is not changed
/// this way.
#[derive(Debug, Clone, PartialEq, Eq)]
pub struct UpdateAssetGroupPayload {
    /// The identifier of the group to update.
    pub id: String,
    pub name: Option<Option<String>>,
    /// Identifiers of the member assets.
    pub assets: Option<Vec<String>>,
    /// Names of the fields to update.
    pub mask: Vec<String>,
}

} // verus!
