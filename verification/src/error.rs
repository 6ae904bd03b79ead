//! The error kinds that the registry reports, and how the outcomes of the
//! persistence service map onto them.

use vstd::prelude::*;

verus! {

/// What a registry operation reports when it does not succeed.
#[derive(Clone, Copy, Debug, PartialEq, Eq, Hash, Structural)]
pub enum RegistryError {
    /// An identifier or an enumeration value is malformed.
    InvalidFormat,
    /// A registration payload holds a malformed required field.
    InvalidPayload,
    /// A field mask is empty or names a field that cannot be updated.
    InvalidMask,
    /// No entity or operator with the given identifier exists.
    NotFound,
    /// The requesting operator is not allowed to do this.
    Forbidden,
    /// A uniqueness rule or a removal policy stands against the request.
    Conflict,
    /// The persistence service could not be reached in time.
    Unavailable,
}

/// What the persistence service reports when a call does not return records.
#[derive(Clone, Copy, Debug, PartialEq, Eq, Hash, Structural)]
pub enum StoreError {
    /// No record with the given identifier exists.
    NotFound,
    /// The service could not be reached, or the call timed out.
    Unavailable,
    /// The write breaks a uniqueness rule or lost against a concurrent one.
    Conflict,
}

impl RegistryError {
    /// The registry error that stands for an outcome of the persistence service.
    pub open spec fn of_store(e: StoreError) -> RegistryError {
        match e {
            StoreError::NotFound => RegistryError::NotFound,
            StoreError::Unavailable => RegistryError::Unavailable,
            StoreError::Conflict => RegistryError::Conflict,
        }
    }

    /// The HTTP status that a transport layer answers with.
    pub open spec fn status_of(self) -> int {
        match self {
            RegistryError::InvalidFormat => 400,
            RegistryError::InvalidPayload => 422,
            RegistryError::InvalidMask => 422,
            RegistryError::NotFound => 404,
            RegistryError::Forbidden => 403,
            RegistryError::Conflict => 409,
            RegistryError::Unavailable => 503,
        }
    }

    /// Passes an outcome of the persistence service on to the caller, unchanged in kind.
    pub fn from_store(e: StoreError) -> (r: RegistryError)
        ensures
            r == Self::of_store(e),
    {
        match e {
            StoreError::NotFound => RegistryError::NotFound,
            StoreError::Unavailable => RegistryError::Unavailable,
            StoreError::Conflict => RegistryError::Conflict,
        }
    }

    /// The HTTP status code for this error.
    pub fn status_code(self) -> (code: u16)
        ensures
            code == self.status_of(),
    {
        match self {
            RegistryError::InvalidFormat => 400,
            RegistryError::InvalidPayload => 422,
            RegistryError::InvalidMask => 422,
            RegistryError::NotFound => 404,
            RegistryError::Forbidden => 403,
            RegistryError::Conflict => 409,
            RegistryError::Unavailable => 503,
        }
    }

    /// Whether the caller may try the same request again later: only an
    /// unreachable persistence service is a passing condition.
    pub fn is_transient(self) -> (r: bool)
        ensures
            r == (self == RegistryError::Unavailable),
    {
        match self {
            RegistryError::Unavailable => true,
            _ => false,
        }
    }
}

/// Whether a result is the expected one, where a value that was handed out
/// is compared by its view.
pub open spec fn yields<T: View>(
    r: Result<T, RegistryError>,
    expected: Result<T::V, RegistryError>,
) -> bool {
    match expected {
        Ok(v) => r matches Ok(x) && x@ == v,
        Err(e) => r matches Err(f) && f == e,
    }
}

} // verus!
