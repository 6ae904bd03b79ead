//! Field masks: the names of the fields that an update may change, read
//! into one tag type for each kind of entity.

use crate::error::RegistryError;
use vstd::prelude::*;

verus! {

/// The tags of the fields of one kind of entity that an update may change.
pub trait FieldTag: Sized + Copy {
    /// The tag that a field name stands for, if it names a field that can be updated.
    spec fn named(name: Seq<char>) -> Option<Self>;

    /// Reads a field name.
    fn from_name(name: &String) -> (r: Option<Self>)
        ensures
            r == Self::named(name@),
    ;

    /// Whether two tags are the same.
    fn same_as(&self, other: &Self) -> (r: bool)
        ensures
            r == (*self == *other),
    ;
}

/// Whether a text is the given literal.
pub fn is_text(text: &String, literal: &str) -> (r: bool)
    ensures
        r == (text@ == literal@),
{
    let owned = literal.to_owned();
    *text == owned
}

/// The updatable fields of an aircraft.
#[derive(Clone, Copy, Debug, PartialEq, Eq, Hash, Structural)]
pub enum AircraftField {
    VehicleModelId,
    LastVertiportId,
    SerialNumber,
    RegistrationNumber,
    Description,
    AssetGroupId,
    Schedule,
    LastMaintenance,
    NextMaintenance,
}

/// The updatable fields of a vertiport.
#[derive(Clone, Copy, Debug, PartialEq, Eq, Hash, Structural)]
pub enum VertiportField {
    Name,
    Description,
    GeoLocation,
    Schedule,
}

/// The updatable fields of a vertipad.
#[derive(Clone, Copy, Debug, PartialEq, Eq, Hash, Structural)]
pub enum VertipadField {
    VertiportId,
    Name,
    GeoLocation,
    Enabled,
    Occupied,
    Schedule,
}

/// The updatable fields of an asset group.
#[derive(Clone, Copy, Debug, PartialEq, Eq, Hash, Structural)]
pub enum AssetGroupField {
    Name,
    Assets,
}

impl FieldTag for AircraftField {
    open spec fn named(name: Seq<char>) -> Option<Self> {
        if name == "vehicle_model_id"@ {
            Some(AircraftField::VehicleModelId)
        } else if name == "last_vertiport_id"@ {
            Some(AircraftField::LastVertiportId)
        } else if name == "serial_number"@ {
            Some(AircraftField::SerialNumber)
        } else if name == "registration_number"@ {
            Some(AircraftField::RegistrationNumber)
        } else if name == "description"@ {
            Some(AircraftField::Description)
        } else if name == "asset_group_id"@ {
            Some(AircraftField::AssetGroupId)
        } else if name == "schedule"@ {
            Some(AircraftField::Schedule)
        } else if name == "last_maintenance"@ {
            Some(AircraftField::LastMaintenance)
        } else if name == "next_maintenance"@ {
            Some(AircraftField::NextMaintenance)
        } else {
            None
        }
    }

    fn from_name(name: &String) -> (r: Option<Self>) {
        if is_text(name, "vehicle_model_id") {
            Some(AircraftField::VehicleModelId)
        } else if is_text(name, "last_vertiport_id") {
            Some(AircraftField::LastVertiportId)
        } else if is_text(name, "serial_number") {
            Some(AircraftField::SerialNumber)
        } else if is_text(name, "registration_number") {
            Some(AircraftField::RegistrationNumber)
        } else if is_text(name, "description") {
            Some(AircraftField::Description)
        } else if is_text(name, "asset_group_id") {
            Some(AircraftField::AssetGroupId)
        } else if is_text(name, "schedule") {
            Some(AircraftField::Schedule)
        } else if is_text(name, "last_maintenance") {
            Some(AircraftField::LastMaintenance)
        } else if is_text(name, "next_maintenance") {
            Some(AircraftField::NextMaintenance)
        } else {
            None
        }
    }

    fn same_as(&self, other: &Self) -> (r: bool) {
        *self == *other
    }
}

impl FieldTag for VertiportField {
    open spec fn named(name: Seq<char>) -> Option<Self> {
        if name == "name"@ {
            Some(VertiportField::Name)
        } else if name == "description"@ {
            Some(VertiportField::Description)
        } else if name == "geo_location"@ {
            Some(VertiportField::GeoLocation)
        } else if name == "schedule"@ {
            Some(VertiportField::Schedule)
        } else {
            None
        }
    }

    fn from_name(name: &String) -> (r: Option<Self>) {
        if is_text(name, "name") {
            Some(VertiportField::Name)
        } else if is_text(name, "description") {
            Some(VertiportField::Description)
        } else if is_text(name, "geo_location") {
            Some(VertiportField::GeoLocation)
        } else if is_text(name, "schedule") {
            Some(VertiportField::Schedule)
        } else {
            None
        }
    }

    fn same_as(&self, other: &Self) -> (r: bool) {
        *self == *other
    }
}

impl FieldTag for VertipadField {
    open spec fn named(name: Seq<char>) -> Option<Self> {
        if name == "vertiport_id"@ {
            Some(VertipadField::VertiportId)
        } else if name == "name"@ {
            Some(VertipadField::Name)
        } else if name == "geo_location"@ {
            Some(VertipadField::GeoLocation)
        } else if name == "enabled"@ {
            Some(VertipadField::Enabled)
        } else if name == "occupied"@ {
            Some(VertipadField::Occupied)
        } else if name == "schedule"@ {
            Some(VertipadField::Schedule)
        } else {
            None
        }
    }

    fn from_name(name: &String) -> (r: Option<Self>) {
        if is_text(name, "vertiport_id") {
            Some(VertipadField::VertiportId)
        } else if is_text(name, "name") {
            Some(VertipadField::Name)
        } else if is_text(name, "geo_location") {
            Some(VertipadField::GeoLocation)
        } else if is_text(name, "enabled") {
            Some(VertipadField::Enabled)
        } else if is_text(name, "occupied") {
            Some(VertipadField::Occupied)
        } else if is_text(name, "schedule") {
            Some(VertipadField::Schedule)
        } else {
            None
        }
    }

    fn same_as(&self, other: &Self) -> (r: bool) {
        *self == *other
    }
}

impl FieldTag for AssetGroupField {
    open spec fn named(name: Seq<char>) -> Option<Self> {
        if name == "name"@ {
            Some(AssetGroupField::Name)
        } else if name == "assets"@ {
            Some(AssetGroupField::Assets)
        } else {
            None
        }
    }

    fn from_name(name: &String) -> (r: Option<Self>) {
        if is_text(name, "name") {
            Some(AssetGroupField::Name)
        } else if is_text(name, "assets") {
            Some(AssetGroupField::Assets)
        } else {
            None
        }
    }

    fn same_as(&self, other: &Self) -> (r: bool) {
        *self == *other
    }
}

/// The tags that a list of field names stands for: an `InvalidMask` where
/// the list is empty or holds a name that is no updatable field, else the tag
/// of each name, in the order of the names.
pub open spec fn mask_of<F: FieldTag>(names: Seq<String>) -> Result<Seq<F>, RegistryError> {
    if names.len() == 0 || exists|i: int| 0 <= i < names.len() && F::named(#[trigger] names[i]@) is None {
        Err(RegistryError::InvalidMask)
    } else {
        Ok(Seq::new(names.len(), |i: int| F::named(names[i]@).unwrap()))
    }
}

/// Reads a field mask.
pub fn parse_mask<F: FieldTag>(names: &Vec<String>) -> (r: Result<Vec<F>, RegistryError>)
    ensures
        match mask_of::<F>(names@) {
            Ok(tags) => r is Ok && r.unwrap()@ == tags,
            Err(e) => r == Err::<Vec<F>, RegistryError>(e),
        },
{
    if names.len() == 0 {
        return Err(RegistryError::InvalidMask);
    }
    let mut tags: Vec<F> = Vec::new();
    let mut i: usize = 0;
    while i < names.len()
        invariant
            i <= names.len(),
            tags@.len() == i,
            forall|j: int| 0 <= j < i ==> F::named(#[trigger] names@[j]@) == Some(tags@[j]),
        decreases names.len() - i,
    {
        match F::from_name(&names[i]) {
            Some(tag) => {
                tags.push(tag);
            },
            None => {
                return Err(RegistryError::InvalidMask);
            },
        }
        i = i + 1;
    }
    assert(tags@ =~= Seq::new(names@.len(), |i: int| F::named(names@[i]@).unwrap()));
    Ok(tags)
}

/// Whether a mask names a field.
pub fn mask_contains<F: FieldTag>(mask: &Vec<F>, tag: F) -> (r: bool)
    ensures
        r == mask@.contains(tag),
{
    let mut i: usize = 0;
    while i < mask.len()
        invariant
            i <= mask.len(),
            forall|j: int| 0 <= j < i ==> mask@[j] != tag,
        decreases mask.len() - i,
    {
        if mask[i].same_as(&tag) {
            return true;
        }
        i = i + 1;
    }
    false
}

} // verus!
