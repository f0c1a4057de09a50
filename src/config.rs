//! Configuration records that the engine consumes.
use vstd::prelude::*;

verus! {

/// Address that the HTTP front end binds to.
pub struct HttpConfig {
    pub addr: Option<String>,
}

/// Credential for the weather provider.
pub struct DarkskyConfig {
    pub secret: Option<String>,
}

/// A configured place. The coordinates are kept as the bit patterns of their
/// IEEE-754 double values: the engine never reads them, it only hands them on
/// to the provider.
pub struct Location {
    pub name: String,
    pub lat_bits: u64,
    pub lon_bits: u64,
    pub link: String,
}

impl Location {
    /// A copy equal to `self`.
    pub fn duplicate(&self) -> (r: Location)
        ensures
            r == *self,
    {
        Location {
            name: self.name.clone(),
            lat_bits: self.lat_bits,
            lon_bits: self.lon_bits,
            link: self.link.clone(),
        }
    }
}

/// The whole configuration file.
pub struct Config {
    pub http: Option<HttpConfig>,
    pub darksky: Option<DarkskyConfig>,
    pub locations: Option<Vec<Location>>,
}

} // verus!
