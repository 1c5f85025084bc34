//! The envelope in which versioned data travels.

use vstd::prelude::*;

verus! {

/// The fork that a response belongs to.
#[derive(Debug, Clone, Copy, PartialEq, Eq, Structural)]
pub enum Version {
    Deneb,
}

impl Version {
    /// The name of the fork as it is written on the wire.
    pub fn name(&self) -> (name: &'static str)
        ensures
            name@ == "deneb"@,
    {
        match self {
            Version::Deneb => "deneb",
        }
    }
}

impl Default for Version {
    fn default() -> (version: Version)
        ensures
            version == Version::Deneb,
    {
        Version::Deneb
    }
}

/// Data together with the fork it belongs to.
#[derive(Debug, Clone)]
pub struct VersionedResponse<T> {
    pub version: Version,
    pub data: T,
}

impl<T: Default> Default for VersionedResponse<T> {
    fn default() -> (response: VersionedResponse<T>)
        ensures
            response.version == Version::Deneb,
    {
        VersionedResponse { version: Version::Deneb, data: T::default() }
    }
}

} // verus!
