//! A second, near-identical species taxonomy kept by another contract
//! variant: the sapience scale and its traveler records.

use vstd::prelude::*;

verus! {

/// The force a being applies onto a latch to open it.
#[derive(Clone, Copy, Debug, PartialEq, Eq, Structural)]
pub enum SapienceScale {
    NoSapience,
    Low,
    Medium,
    High,
    Unreachable,
    Sentient,
    MettaPlanar,
    Connected,
    ChaoticGood,
    Evolved,
    Transcendent,
    Omnipresent,
    Lain,
}

impl SapienceScale {
    /// The display name of this scale point. `ChaoticGood` is reported
    /// under the shortened name `Chaotic`.
    pub open spec fn label(self) -> Seq<char> {
        match self {
            SapienceScale::NoSapience => "None"@,
            SapienceScale::Low => "Low"@,
            SapienceScale::Medium => "Medium"@,
            SapienceScale::High => "High"@,
            SapienceScale::Unreachable => "Unreachable"@,
            SapienceScale::Sentient => "Sentient"@,
            SapienceScale::MettaPlanar => "MettaPlanar"@,
            SapienceScale::Connected => "Connected"@,
            SapienceScale::ChaoticGood => "Chaotic"@,
            SapienceScale::Evolved => "Evolved"@,
            SapienceScale::Transcendent => "Transcendent"@,
            SapienceScale::Omnipresent => "Omnipresent"@,
            SapienceScale::Lain => "Lain"@,
        }
    }

    /// The display name of this scale point.
    pub fn as_str(&self) -> (r: &str)
        ensures
            r@ == self.label(),
    {
        match self {
            SapienceScale::NoSapience => "None",
            SapienceScale::Low => "Low",
            SapienceScale::Medium => "Medium",
            SapienceScale::High => "High",
            SapienceScale::Unreachable => "Unreachable",
            SapienceScale::Sentient => "Sentient",
            SapienceScale::MettaPlanar => "MettaPlanar",
            SapienceScale::Connected => "Connected",
            SapienceScale::ChaoticGood => "Chaotic",
            SapienceScale::Evolved => "Evolved",
            SapienceScale::Transcendent => "Transcendent",
            SapienceScale::Omnipresent => "Omnipresent",
            SapienceScale::Lain => "Lain",
        }
    }
}

/// A species and its sapience scale point.
#[derive(Clone, Debug, PartialEq)]
pub struct Species {
    pub name: String,
    pub sapience_level: SapienceScale,
}

/// A traveler record; the home ledger address is carried as a plain
/// identity string.
#[derive(Clone, Debug, PartialEq)]
pub struct Traveler {
    pub name: String,
    pub home: String,
    pub species: Species,
    pub cyberdized: bool,
}

/// The answer to a sapience query.
#[derive(Clone, Copy, Debug, PartialEq)]
pub struct SapienceResponse {
    pub level: SapienceScale,
}

/// A sapient being's traits, kept opaque to callers.
#[allow(dead_code)]
#[derive(Clone, Debug, PartialEq)]
pub struct Sapient {
    name: String,
    telepathic: bool,
    chaotic: bool,
    transcendent: bool,
    omnipresent: bool,
    loving: bool,
}

} // verus!
