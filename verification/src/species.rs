//! The species taxonomy consulted by passport-style records: sapience
//! levels, species descriptions and traveler records. Flavor data with
//! no behavior beyond naming the levels.

use vstd::prelude::*;

verus! {

/// The force a being applies onto latches to open them.
#[derive(Clone, Copy, Debug, PartialEq, Eq, Structural)]
pub enum SapienceLevel {
    NoSapience,
    Low,
    Medium,
    High,
    Unreachable,
    Sentient,
    MettaPlanar,
    Connected,
    ChaoticGood,
    Evolved,
    Transcendent,
    Omnipresent,
    Lain,
}

impl SapienceLevel {
    /// The display name of this level. `ChaoticGood` is reported under
    /// the shortened name `Chaotic`.
    pub open spec fn label(self) -> Seq<char> {
        match self {
            SapienceLevel::NoSapience => "None"@,
            SapienceLevel::Low => "Low"@,
            SapienceLevel::Medium => "Medium"@,
            SapienceLevel::High => "High"@,
            SapienceLevel::Unreachable => "Unreachable"@,
            SapienceLevel::Sentient => "Sentient"@,
            SapienceLevel::MettaPlanar => "MettaPlanar"@,
            SapienceLevel::Connected => "Connected"@,
            SapienceLevel::ChaoticGood => "Chaotic"@,
            SapienceLevel::Evolved => "Evolved"@,
            SapienceLevel::Transcendent => "Transcendent"@,
            SapienceLevel::Omnipresent => "Omnipresent"@,
            SapienceLevel::Lain => "Lain"@,
        }
    }

    /// The display name of this level.
    pub fn as_str(&self) -> (r: &str)
        ensures
            r@ == self.label(),
    {
        match self {
            SapienceLevel::NoSapience => "None",
            SapienceLevel::Low => "Low",
            SapienceLevel::Medium => "Medium",
            SapienceLevel::High => "High",
            SapienceLevel::Unreachable => "Unreachable",
            SapienceLevel::Sentient => "Sentient",
            SapienceLevel::MettaPlanar => "MettaPlanar",
            SapienceLevel::Connected => "Connected",
            SapienceLevel::ChaoticGood => "Chaotic",
            SapienceLevel::Evolved => "Evolved",
            SapienceLevel::Transcendent => "Transcendent",
            SapienceLevel::Omnipresent => "Omnipresent",
            SapienceLevel::Lain => "Lain",
        }
    }
}

/// A species and its sapience level.
#[derive(Clone, Debug, PartialEq)]
pub struct Specie {
    pub name: String,
    pub sapience_level: SapienceLevel,
}

/// A participant's passport: who they are and what species they belong to.
#[derive(Clone, Debug, PartialEq)]
pub struct Passport {
    pub participant_id: String,
    pub specie: Specie,
}

/// The sapience levels a role grants access to.
#[derive(Clone, Debug, PartialEq)]
pub struct Roles {
    pub roles: Vec<SapienceLevel>,
}

/// A traveler record; the home ledger address is carried as a plain
/// identity string.
#[derive(Clone, Debug, PartialEq)]
pub struct Traveler {
    pub name: String,
    pub home: String,
    pub species: Specie,
    pub cyberdized: bool,
}

/// The answer to a sapience query.
#[derive(Clone, Copy, Debug, PartialEq)]
pub struct SapienceResponse {
    pub level: SapienceLevel,
}

/// A sapient being's traits, kept opaque to callers.
#[allow(dead_code)]
#[derive(Clone, Debug, PartialEq)]
pub struct Sapient {
    name: String,
    telepathic: bool,
    chaotic: bool,
    transcendent: bool,
    omnipresent: bool,
    loving: bool,
}

} // verus!
