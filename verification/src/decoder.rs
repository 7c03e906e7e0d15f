//! The decoder for hydrometer advertisements.
//!
//! A hydrometer broadcasts its state as the vendor payload of a beacon
//! advertisement, 23 bytes long:
//!
//! | bytes    | content                                             |
//! |----------|-----------------------------------------------------|
//! | 0        | type marker, `0x02`                                 |
//! | 1        | length marker, `0x15`                               |
//! | 2 .. 18  | the 128-bit identifier of the hydrometer            |
//! | 18 .. 20 | temperature in whole °F, big-endian                 |
//! | 20 .. 22 | specific gravity in thousandths, big-endian         |
//! | 22       | transmit power, signed; read past, never surfaced   |
//!
//! Most advertisements in the air come from unrelated devices, so a payload
//! that does not fit is no error: it decodes to `None`.

use crate::identity::{color_of_bytes, TiltColor};
use crate::reading::TiltReading;
use crate::time::{utc_now, Timestamp};
use uuid::Uuid;
use vstd::prelude::*;

verus! {

/// The manufacturer under whose identifier hydrometers advertise.
pub const APPLE_COMPANY_ID: u16 = 0x004C;

/// First byte of a beacon payload.
pub const IBEACON_TYPE: u8 = 0x02;

/// Second byte of a beacon payload: the number of bytes that follow.
pub const IBEACON_LENGTH: u8 = 0x15;

/// The shortest payload that can hold a reading.
pub const ADVERTISEMENT_LENGTH: usize = 23;

/// The number that two bytes spell, most significant byte first.
pub open spec fn big_endian(high: u8, low: u8) -> int {
    high as int * 256 + low as int
}

/// Whether a payload is long enough and starts with the two markers.
pub open spec fn has_beacon_frame(data: Seq<u8>) -> bool {
    &&& data.len() >= ADVERTISEMENT_LENGTH
    &&& data[0] == IBEACON_TYPE
    &&& data[1] == IBEACON_LENGTH
}

/// The identity that a payload names, if it is framed as a beacon and its
/// identifier is in the table.
pub open spec fn advertised_color(data: Seq<u8>) -> Option<TiltColor> {
    if has_beacon_frame(data) {
        color_of_bytes(data.subrange(2, 18))
    } else {
        None
    }
}

/// What a payload observed at `observed_at` decodes to.
pub open spec fn decoded(data: Seq<u8>, observed_at: Timestamp) -> Option<TiltReading> {
    match advertised_color(data) {
        Some(color) => Some(
            TiltReading {
                color,
                temperature_f: (big_endian(data[18], data[19]) * 1_000_000) as i64,
                gravity: (big_endian(data[20], data[21]) * 1_000) as i64,
                rssi: None,
                recorded_at: observed_at,
            },
        ),
        None => None,
    }
}

/// The payload that a hydrometer of the given identity sends for a
/// temperature in whole °F, a gravity in thousandths and a transmit power.
pub open spec fn advertisement(color: TiltColor, temperature: u16, gravity: u16, power: u8) -> Seq<
    u8,
> {
    seq![IBEACON_TYPE, IBEACON_LENGTH] + color.id_bytes() + seq![
        (temperature / 256) as u8,
        (temperature % 256) as u8,
        (gravity / 256) as u8,
        (gravity % 256) as u8,
        power,
    ]
}

/// Decodes one vendor payload that was observed at `observed_at`.
///
/// The reading carries no signal strength: whoever has the transport's
/// metadata fills it in.
pub fn decode_advertisement(data: &[u8], observed_at: Timestamp) -> (reading: Option<TiltReading>)
    ensures
        reading == decoded(data@, observed_at),
{
    if data.len() < ADVERTISEMENT_LENGTH {
        return None;
    }
    if data[0] != IBEACON_TYPE || data[1] != IBEACON_LENGTH {
        return None;
    }
    let id: [u8; 16] = [
        data[2],
        data[3],
        data[4],
        data[5],
        data[6],
        data[7],
        data[8],
        data[9],
        data[10],
        data[11],
        data[12],
        data[13],
        data[14],
        data[15],
        data[16],
        data[17],
    ];
    assert(id@ =~= data@.subrange(2, 18));
    let uuid = Uuid::from_bytes(id);
    let color = match TiltColor::from_uuid(&uuid) {
        Some(color) => color,
        None => {
            return None;
        },
    };
    let major: i64 = (data[18] as i64) * 256 + (data[19] as i64);
    let minor: i64 = (data[20] as i64) * 256 + (data[21] as i64);
    Some(TiltReading::new(color, major * 1_000_000, minor * 1_000, None, observed_at))
}

/// Decodes one vendor payload and stamps the reading with the current time.
pub fn parse_ibeacon_tilt(data: &[u8]) -> (reading: Option<TiltReading>)
    ensures
        reading is Some <==> advertised_color(data@) is Some,
        reading matches Some(r) ==> decoded(data@, r.recorded_at) == Some(r),
{
    decode_advertisement(data, utc_now())
}

/// A well-formed payload decodes to the identity, temperature and gravity
/// that it was made from, whatever the transmit power.
pub proof fn lemma_decode_round_trip(
    color: TiltColor,
    temperature: u16,
    gravity: u16,
    power: u8,
    observed_at: Timestamp,
)
    ensures
        advertisement(color, temperature, gravity, power).len() == ADVERTISEMENT_LENGTH,
        decoded(advertisement(color, temperature, gravity, power), observed_at) == Some(
            TiltReading {
                color,
                temperature_f: (temperature * 1_000_000) as i64,
                gravity: (gravity * 1_000) as i64,
                rssi: None,
                recorded_at: observed_at,
            },
        ),
{
    let data = advertisement(color, temperature, gravity, power);
    assert(data.subrange(2, 18) =~= color.id_bytes());
}

/// A payload that is too short, starts with another type or length marker,
/// or names an identifier outside the table decodes to nothing; and those are
/// the only payloads that do.
pub proof fn lemma_decode_rejection(data: Seq<u8>, observed_at: Timestamp)
    ensures
        decoded(data, observed_at) is None <==> {
            ||| data.len() < ADVERTISEMENT_LENGTH
            ||| data[0] != IBEACON_TYPE
            ||| data[1] != IBEACON_LENGTH
            ||| forall|c: TiltColor| c.id_bytes() != data.subrange(2, 18)
        },
{
}

} // verus!
