//! The plain data that the client and the sink exchange besides readings.

use crate::identity::TiltColor;
use crate::time::Timestamp;
use uuid::Uuid;
use vstd::prelude::*;

verus! {

/// How many readings a query returns where it names no limit.
pub const DEFAULT_READINGS_LIMIT: u64 = 1000;

/// Where a brew stands.
#[derive(Debug, Clone, Copy, PartialEq, Eq, Structural)]
pub enum BrewStatus {
    Active,
    Completed,
    Archived,
}

/// The registration of a hydrometer: its identity and, if it has one, the
/// name that its owner gave it.
#[derive(Debug, Clone)]
pub struct CreateHydrometer {
    pub color: TiltColor,
    pub name: Option<String>,
}

/// A query for stored readings. Every field may be left out.
#[derive(Debug, Clone)]
pub struct ReadingsQuery {
    pub brew_id: Option<Uuid>,
    pub hydrometer_id: Option<Uuid>,
    pub since: Option<Timestamp>,
    pub until: Option<Timestamp>,
    pub limit: Option<u64>,
}

impl ReadingsQuery {
    /// The limit that the query names, or the default where it names none.
    pub fn limit_or_default(&self) -> (limit: u64)
        ensures
            limit == (match self.limit {
                Some(n) => n,
                None => DEFAULT_READINGS_LIMIT,
            }),
    {
        match self.limit {
            Some(n) => n,
            None => DEFAULT_READINGS_LIMIT,
        }
    }
}

} // verus!
