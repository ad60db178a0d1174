//! The shapes exchanged with clients and the float-free parts of a flight
//! record. The handler itself is generic in the record it carries.

use vstd::prelude::*;

verus! {

/// What a client receives in place of a batch when a lookup fails.
#[derive(Default, Debug, Clone, PartialEq, Eq)]
pub struct RequestError {
    pub message: String,
}

impl RequestError {
    /// An error carrying `message`.
    pub fn new(message: &str) -> (error: RequestError)
        ensures
            error.message@ == message@,
    {
        RequestError { message: String::from_str(message) }
    }
}

/// A point in time, in UTC and in the airport's local time.
#[derive(Default, Debug, Clone, PartialEq, Eq)]
pub struct Time {
    pub utc: String,
    pub local: String,
}

/// The aircraft that flies a leg.
#[derive(Default, Debug, Clone, PartialEq, Eq)]
pub struct Aircraft {
    pub reg: Option<String>,
    pub mode_s: Option<String>,
    pub model: Option<String>,
    pub image: Option<Image>,
}

/// A picture of an aircraft, with its attribution.
#[derive(Default, Debug, Clone, PartialEq, Eq)]
pub struct Image {
    pub url: String,
    pub web_url: Option<String>,
    pub author: Option<String>,
    pub title: Option<String>,
    pub description: Option<String>,
    pub license: String,
    pub html_attributions: Option<Vec<String>>,
}

/// The airline that operates a flight.
#[derive(Default, Debug, Clone, PartialEq, Eq)]
pub struct Airline {
    pub name: String,
    pub iata: Option<String>,
    pub icao: Option<String>,
}

} // verus!
