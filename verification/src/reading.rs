//! A hydrometer reading and the batch in which readings travel.
//!
//! Temperature and gravity are fixed-point numbers in millionths: a
//! temperature of 68 °F is `68_000_000`, a specific gravity of 1.050 is
//! `1_050_000`.

use crate::identity::TiltColor;
use crate::time::Timestamp;
use vstd::prelude::*;

verus! {

/// How many fixed-point units make one whole unit.
pub const MICRO: i64 = 1_000_000;

/// One observation of one hydrometer. A reading is made once and never
/// changed afterwards.
#[derive(Debug, Clone, Copy, PartialEq, Eq, Structural)]
pub struct TiltReading {
    pub color: TiltColor,
    /// Temperature in millionths of a degree Fahrenheit.
    pub temperature_f: i64,
    /// Specific gravity in millionths.
    pub gravity: i64,
    /// Received signal strength, where the transport reported one.
    pub rssi: Option<i16>,
    pub recorded_at: Timestamp,
}

impl TiltReading {
    pub fn new(
        color: TiltColor,
        temperature_f: i64,
        gravity: i64,
        rssi: Option<i16>,
        recorded_at: Timestamp,
    ) -> (reading: TiltReading)
        ensures
            reading == (TiltReading { color, temperature_f, gravity, rssi, recorded_at }),
    {
        TiltReading { color, temperature_f, gravity, rssi, recorded_at }
    }
}

/// A copy of the readings, in their order.
pub fn copy_readings(readings: &[TiltReading]) -> (copy: Vec<TiltReading>)
    ensures
        copy@ == readings@,
{
    let mut copy: Vec<TiltReading> = Vec::new();
    let mut i: usize = 0;
    while i < readings.len()
        invariant
            i <= readings.len(),
            copy@ == readings@.subrange(0, i as int),
        decreases readings.len() - i,
    {
        copy.push(readings[i]);
        i += 1;
    }
    copy
}

/// The body of one upload: readings in the order in which they are sent.
#[derive(Debug, Clone)]
pub struct CreateReadingsBatch(pub Vec<TiltReading>);

impl View for CreateReadingsBatch {
    type V = Seq<TiltReading>;

    open spec fn view(&self) -> Seq<TiltReading> {
        self.0@
    }
}

impl CreateReadingsBatch {
    pub fn new(readings: Vec<TiltReading>) -> (batch: CreateReadingsBatch)
        ensures
            batch@ == readings@,
            batch.0 == readings,
    {
        CreateReadingsBatch(readings)
    }

    pub fn readings(&self) -> (readings: &[TiltReading])
        ensures
            readings@ == self@,
    {
        self.0.as_slice()
    }

    pub fn len(&self) -> (n: usize)
        ensures
            n == self@.len(),
    {
        self.0.len()
    }

    pub fn is_empty(&self) -> (empty: bool)
        ensures
            empty == (self@.len() == 0),
    {
        self.0.len() == 0
    }
}

} // verus!
