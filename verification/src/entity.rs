//! The records of the registry and their mathematical views.
//!
//! A view replaces every `String` by its sequence of characters and every
//! `Vec` by its sequence of items; contracts speak of views only.

use crate::identifier::Identifier;
use vstd::prelude::*;

verus! {

/// A point in time: seconds and nanoseconds since the Unix epoch.
#[derive(Clone, Copy, Debug, PartialEq, Eq, Hash, Structural)]
pub struct Timestamp {
    pub seconds: u64,
    pub nanos: u32,
}

/// Status of an asset.
#[derive(Clone, Copy, Debug, PartialEq, Eq, Hash, Structural)]
pub enum AssetStatus {
    /// The asset is available for use.
    Available,
    /// The asset is unavailable for use.
    Unavailable,
    /// The asset is only available for emergencies.
    Emergency,
}

/// A measured quantity, carried through as the bit pattern of its IEEE 754
/// double. No rule of the registry reads it.
#[derive(Clone, Copy, Debug, PartialEq, Eq, Hash, Structural)]
pub struct Quantity {
    pub bits: u64,
}

/// A geographic point; both coordinates are carried as bit patterns.
#[derive(Clone, Copy, Debug, PartialEq, Eq, Hash, Structural)]
pub struct GeoPoint {
    pub latitude: Quantity,
    pub longitude: Quantity,
}

/// A geographic area, given by the points of its outer boundary in order.
#[derive(Debug, PartialEq, Eq)]
pub struct GeoPolygon {
    pub exterior: Vec<GeoPoint>,
}

/// The characters of an optional text.
pub open spec fn text_of(o: Option<String>) -> Option<Seq<char>> {
    match o {
        Some(s) => Some(s@),
        None => None,
    }
}

/// Copies an optional text.
pub fn clone_text(o: &Option<String>) -> (r: Option<String>)
    ensures
        text_of(r) == text_of(*o),
{
    match o {
        Some(s) => Some(s.clone()),
        None => None,
    }
}

/// Copies a list of identifiers.
pub fn clone_ids(v: &Vec<Identifier>) -> (r: Vec<Identifier>)
    ensures
        r@ == v@,
{
    let mut out: Vec<Identifier> = Vec::new();
    let mut i: usize = 0;
    while i < v.len()
        invariant
            i <= v.len(),
            out@ == v@.subrange(0, i as int),
        decreases v.len() - i,
    {
        out.push(v[i]);
        i = i + 1;
        assert(out@ =~= v@.subrange(0, i as int));
    }
    assert(v@.subrange(0, v.len() as int) =~= v@);
    out
}

impl View for GeoPolygon {
    type V = Seq<GeoPoint>;

    open spec fn view(&self) -> Seq<GeoPoint> {
        self.exterior@
    }
}

impl Clone for GeoPolygon {
    fn clone(&self) -> (r: Self)
        ensures
            r@ == self@,
    {
        let mut out: Vec<GeoPoint> = Vec::new();
        let mut i: usize = 0;
        while i < self.exterior.len()
            invariant
                i <= self.exterior.len(),
                out@ == self.exterior@.subrange(0, i as int),
            decreases self.exterior.len() - i,
        {
            out.push(self.exterior[i]);
            i = i + 1;
            assert(out@ =~= self.exterior@.subrange(0, i as int));
        }
        assert(self.exterior@.subrange(0, self.exterior.len() as int) =~= self.exterior@);
        GeoPolygon { exterior: out }
    }
}

/// What every physical asset carries.
#[derive(Debug, PartialEq, Eq)]
pub struct Basics {
    pub id: Identifier,
    /// Display name.
    pub name: Option<String>,
    /// The group that the asset was put in. A back-reference only: which
    /// assets a group holds is decided by the group's own record.
    pub group_id: Option<Identifier>,
    /// The operator that owns the asset.
    pub owner: Identifier,
    /// Operators that may use the asset besides its owner.
    pub whitelist: Vec<Identifier>,
    pub created_at: Timestamp,
    pub updated_at: Option<Timestamp>,
    pub status: AssetStatus,
    /// Recurrence rule of the hours of availability.
    pub schedule: Option<String>,
}

/// The view of a [`Basics`].
pub ghost struct BasicsView {
    pub id: Identifier,
    pub name: Option<Seq<char>>,
    pub group_id: Option<Identifier>,
    pub owner: Identifier,
    pub whitelist: Seq<Identifier>,
    pub created_at: Timestamp,
    pub updated_at: Option<Timestamp>,
    pub status: AssetStatus,
    pub schedule: Option<Seq<char>>,
}

impl View for Basics {
    type V = BasicsView;

    open spec fn view(&self) -> BasicsView {
        BasicsView {
            id: self.id,
            name: text_of(self.name),
            group_id: self.group_id,
            owner: self.owner,
            whitelist: self.whitelist@,
            created_at: self.created_at,
            updated_at: self.updated_at,
            status: self.status,
            schedule: text_of(self.schedule),
        }
    }
}

impl Clone for Basics {
    fn clone(&self) -> (r: Self)
        ensures
            r@ == self@,
    {
        Basics {
            id: self.id,
            name: clone_text(&self.name),
            group_id: self.group_id,
            owner: self.owner,
            whitelist: clone_ids(&self.whitelist),
            created_at: self.created_at,
            updated_at: self.updated_at,
            status: self.status,
            schedule: clone_text(&self.schedule),
        }
    }
}

/// An aircraft of the fleet.
#[derive(Debug, PartialEq, Eq)]
pub struct Aircraft {
    pub basics: Basics,
    /// The model of the aircraft.
    pub vehicle_model_id: Identifier,
    pub manufacturer: String,
    /// The serial number given at the factory.
    pub serial_number: String,
    /// The registration number, unique across the fleet.
    pub registration_number: String,
    pub description: Option<String>,
    pub max_payload_kg: Quantity,
    pub max_range_km: Quantity,
    /// Date of the last maintenance.
    pub last_maintenance: Option<String>,
    /// Date of the next planned maintenance.
    pub next_maintenance: Option<String>,
    /// The vertiport where the aircraft was last reported.
    pub last_vertiport_id: Option<Identifier>,
}

/// The view of an [`Aircraft`].
pub ghost struct AircraftView {
    pub basics: BasicsView,
    pub vehicle_model_id: Identifier,
    pub manufacturer: Seq<char>,
    pub serial_number: Seq<char>,
    pub registration_number: Seq<char>,
    pub description: Option<Seq<char>>,
    pub max_payload_kg: Quantity,
    pub max_range_km: Quantity,
    pub last_maintenance: Option<Seq<char>>,
    pub next_maintenance: Option<Seq<char>>,
    pub last_vertiport_id: Option<Identifier>,
}

impl View for Aircraft {
    type V = AircraftView;

    open spec fn view(&self) -> AircraftView {
        AircraftView {
            basics: self.basics@,
            vehicle_model_id: self.vehicle_model_id,
            manufacturer: self.manufacturer@,
            serial_number: self.serial_number@,
            registration_number: self.registration_number@,
            description: text_of(self.description),
            max_payload_kg: self.max_payload_kg,
            max_range_km: self.max_range_km,
            last_maintenance: text_of(self.last_maintenance),
            next_maintenance: text_of(self.next_maintenance),
            last_vertiport_id: self.last_vertiport_id,
        }
    }
}

impl Clone for Aircraft {
    fn clone(&self) -> (r: Self)
        ensures
            r@ == self@,
    {
        Aircraft {
            basics: self.basics.clone(),
            vehicle_model_id: self.vehicle_model_id,
            manufacturer: self.manufacturer.clone(),
            serial_number: self.serial_number.clone(),
            registration_number: self.registration_number.clone(),
            description: clone_text(&self.description),
            max_payload_kg: self.max_payload_kg,
            max_range_km: self.max_range_km,
            last_maintenance: clone_text(&self.last_maintenance),
            next_maintenance: clone_text(&self.next_maintenance),
            last_vertiport_id: self.last_vertiport_id,
        }
    }
}

/// A vertiport and the vertipads it hosts.
#[derive(Debug, PartialEq, Eq)]
pub struct Vertiport {
    pub basics: Basics,
    pub geo_location: GeoPolygon,
    pub description: Option<String>,
    /// The vertipads of this vertiport, in the order in which they were added.
    pub vertipads: Vec<Identifier>,
}

/// The view of a [`Vertiport`].
pub ghost struct VertiportView {
    pub basics: BasicsView,
    pub geo_location: Seq<GeoPoint>,
    pub description: Option<Seq<char>>,
    pub vertipads: Seq<Identifier>,
}

impl View for Vertiport {
    type V = VertiportView;

    open spec fn view(&self) -> VertiportView {
        VertiportView {
            basics: self.basics@,
            geo_location: self.geo_location@,
            description: text_of(self.description),
            vertipads: self.vertipads@,
        }
    }
}

impl Clone for Vertiport {
    fn clone(&self) -> (r: Self)
        ensures
            r@ == self@,
    {
        Vertiport {
            basics: self.basics.clone(),
            geo_location: self.geo_location.clone(),
            description: clone_text(&self.description),
            vertipads: clone_ids(&self.vertipads),
        }
    }
}

/// A landing pad. It lives and dies with the vertiport that hosts it.
#[derive(Debug, PartialEq, Eq)]
pub struct Vertipad {
    pub id: Identifier,
    pub name: Option<String>,
    pub geo_location: GeoPoint,
    /// The vertiport that hosts the pad; absent once the pad was detached.
    pub vertiport_id: Option<Identifier>,
    /// Whether the pad is in business.
    pub enabled: bool,
    /// Whether an aircraft stands on the pad.
    pub occupied: bool,
    pub schedule: Option<String>,
}

/// The view of a [`Vertipad`].
pub ghost struct VertipadView {
    pub id: Identifier,
    pub name: Option<Seq<char>>,
    pub geo_location: GeoPoint,
    pub vertiport_id: Option<Identifier>,
    pub enabled: bool,
    pub occupied: bool,
    pub schedule: Option<Seq<char>>,
}

impl View for Vertipad {
    type V = VertipadView;

    open spec fn view(&self) -> VertipadView {
        VertipadView {
            id: self.id,
            name: text_of(self.name),
            geo_location: self.geo_location,
            vertiport_id: self.vertiport_id,
            enabled: self.enabled,
            occupied: self.occupied,
            schedule: text_of(self.schedule),
        }
    }
}

impl Clone for Vertipad {
    fn clone(&self) -> (r: Self)
        ensures
            r@ == self@,
    {
        Vertipad {
            id: self.id,
            name: clone_text(&self.name),
            geo_location: self.geo_location,
            vertiport_id: self.vertiport_id,
            enabled: self.enabled,
            occupied: self.occupied,
            schedule: clone_text(&self.schedule),
        }
    }
}

/// A named set of aircraft and vertiports that one operator owns and may
/// lend, as a whole, to one other operator at a time.
#[derive(Debug, PartialEq, Eq)]
pub struct AssetGroup {
    pub id: Identifier,
    pub name: Option<String>,
    /// The operator that owns the group.
    pub owner: Identifier,
    pub created_at: Timestamp,
    pub updated_at: Option<Timestamp>,
    /// The operator that currently borrows the group, if any.
    pub delegatee: Option<Identifier>,
    /// The members, in the order in which they were added.
    pub assets: Vec<Identifier>,
}

/// The view of an [`AssetGroup`].
pub ghost struct AssetGroupView {
    pub id: Identifier,
    pub name: Option<Seq<char>>,
    pub owner: Identifier,
    pub created_at: Timestamp,
    pub updated_at: Option<Timestamp>,
    pub delegatee: Option<Identifier>,
    pub assets: Seq<Identifier>,
}

impl View for AssetGroup {
    type V = AssetGroupView;

    open spec fn view(&self) -> AssetGroupView {
        AssetGroupView {
            id: self.id,
            name: text_of(self.name),
            owner: self.owner,
            created_at: self.created_at,
            updated_at: self.updated_at,
            delegatee: self.delegatee,
            assets: self.assets@,
        }
    }
}

impl Clone for AssetGroup {
    fn clone(&self) -> (r: Self)
        ensures
            r@ == self@,
    {
        AssetGroup {
            id: self.id,
            name: clone_text(&self.name),
            owner: self.owner,
            created_at: self.created_at,
            updated_at: self.updated_at,
            delegatee: self.delegatee,
            assets: clone_ids(&self.assets),
        }
    }
}

/// An organisation that may own assets or borrow them.
#[derive(Debug, PartialEq, Eq)]
pub struct Operator {
    pub id: Identifier,
    pub name: String,
}

/// The view of an [`Operator`].
pub ghost struct OperatorView {
    pub id: Identifier,
    pub name: Seq<char>,
}

impl View for Operator {
    type V = OperatorView;

    open spec fn view(&self) -> OperatorView {
        OperatorView { id: self.id, name: self.name@ }
    }
}

impl Clone for Operator {
    fn clone(&self) -> (r: Self)
        ensures
            r@ == self@,
    {
        Operator { id: self.id, name: self.name.clone() }
    }
}

} // verus!
