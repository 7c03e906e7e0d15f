//! The closed set of hydrometer identities and the table that ties each one
//! to its 128-bit identifier and to its name.

use crate::text::same_text;
use uuid::Uuid;
use vstd::prelude::*;

verus! {

/// One of the eight hydrometer identities.
#[derive(Debug, Clone, Copy, PartialEq, Eq, Hash, Structural)]
pub enum TiltColor {
    Red,
    Green,
    Black,
    Purple,
    Orange,
    Blue,
    Yellow,
    Pink,
}

/// How many identities there are.
pub const TILT_COLOR_COUNT: usize = 8;

/// `uuid::Uuid`, a 128-bit identifier. The library never looks inside one; it
/// goes through `Uuid::from_bytes` and `Uuid::as_bytes`.
#[verifier::external_type_specification]
#[verifier::external_body]
pub struct ExUuid(Uuid);

/// The sixteen bytes that a `Uuid` holds, most significant first.
pub uninterp spec fn uuid_bytes(id: Uuid) -> Seq<u8>;

/// `Uuid::from_bytes` stores the given array unchanged.
pub assume_specification[ Uuid::from_bytes ](bytes: [u8; 16]) -> (id: Uuid)
    ensures
        uuid_bytes(id) == bytes@,
;

/// `Uuid::as_bytes` borrows the stored array.
pub assume_specification[ Uuid::as_bytes ](id: &Uuid) -> (bytes: &[u8; 16])
    ensures
        bytes@ == uuid_bytes(*id),
;

/// The table in its fixed order.
pub open spec fn all_colors() -> Seq<TiltColor> {
    seq![
        TiltColor::Red,
        TiltColor::Green,
        TiltColor::Black,
        TiltColor::Purple,
        TiltColor::Orange,
        TiltColor::Blue,
        TiltColor::Yellow,
        TiltColor::Pink,
    ]
}

/// The identity whose identifier is `bytes`, if there is one.
pub open spec fn color_of_bytes(bytes: Seq<u8>) -> Option<TiltColor> {
    if exists|c: TiltColor| #[trigger] c.id_bytes() == bytes {
        Some(choose|c: TiltColor| #[trigger] c.id_bytes() == bytes)
    } else {
        None
    }
}

/// The identity whose name is `name`, if there is one.
pub open spec fn color_of_name(name: Seq<char>) -> Option<TiltColor> {
    if exists|c: TiltColor| #[trigger] c.name_chars() == name {
        Some(choose|c: TiltColor| #[trigger] c.name_chars() == name)
    } else {
        None
    }
}

impl TiltColor {
    /// Position of the identity in the table, from 0 to 7.
    pub open spec fn ordinal(self) -> nat {
        match self {
            TiltColor::Red => 0,
            TiltColor::Green => 1,
            TiltColor::Black => 2,
            TiltColor::Purple => 3,
            TiltColor::Orange => 4,
            TiltColor::Blue => 5,
            TiltColor::Yellow => 6,
            TiltColor::Pink => 7,
        }
    }

    /// The one byte in which the identifiers differ.
    pub open spec fn marker(self) -> u8 {
        match self {
            TiltColor::Red => 0x10,
            TiltColor::Green => 0x20,
            TiltColor::Black => 0x30,
            TiltColor::Purple => 0x40,
            TiltColor::Orange => 0x50,
            TiltColor::Blue => 0x60,
            TiltColor::Yellow => 0x70,
            TiltColor::Pink => 0x80,
        }
    }

    /// The 128-bit identifier of the identity, most significant byte first.
    pub open spec fn id_bytes(self) -> Seq<u8> {
        seq![
            0xA4u8,
            0x95u8,
            0xBBu8,
            self.marker(),
            0xC5u8,
            0xB1u8,
            0x4Bu8,
            0x44u8,
            0xB5u8,
            0x12u8,
            0x13u8,
            0x70u8,
            0xF0u8,
            0x2Du8,
            0x74u8,
            0xDEu8,
        ]
    }

    /// The name of the identity, as it is written on the wire.
    pub open spec fn name_chars(self) -> Seq<char> {
        match self {
            TiltColor::Red => seq!['R', 'e', 'd'],
            TiltColor::Green => seq!['G', 'r', 'e', 'e', 'n'],
            TiltColor::Black => seq!['B', 'l', 'a', 'c', 'k'],
            TiltColor::Purple => seq!['P', 'u', 'r', 'p', 'l', 'e'],
            TiltColor::Orange => seq!['O', 'r', 'a', 'n', 'g', 'e'],
            TiltColor::Blue => seq!['B', 'l', 'u', 'e'],
            TiltColor::Yellow => seq!['Y', 'e', 'l', 'l', 'o', 'w'],
            TiltColor::Pink => seq!['P', 'i', 'n', 'k'],
        }
    }

    /// Position of the identity in the table.
    pub fn index(&self) -> (i: usize)
        ensures
            i == self.ordinal(),
            i < TILT_COLOR_COUNT,
            all_colors()[i as int] == *self,
    {
        match self {
            TiltColor::Red => 0,
            TiltColor::Green => 1,
            TiltColor::Black => 2,
            TiltColor::Purple => 3,
            TiltColor::Orange => 4,
            TiltColor::Blue => 5,
            TiltColor::Yellow => 6,
            TiltColor::Pink => 7,
        }
    }

    /// The identity at position `i` of the table.
    pub fn from_index(i: usize) -> (color: Option<TiltColor>)
        ensures
            i < TILT_COLOR_COUNT ==> color == Some(all_colors()[i as int]),
            i >= TILT_COLOR_COUNT ==> color is None,
            color matches Some(c) ==> c.ordinal() == i,
    {
        match i {
            0 => Some(TiltColor::Red),
            1 => Some(TiltColor::Green),
            2 => Some(TiltColor::Black),
            3 => Some(TiltColor::Purple),
            4 => Some(TiltColor::Orange),
            5 => Some(TiltColor::Blue),
            6 => Some(TiltColor::Yellow),
            7 => Some(TiltColor::Pink),
            _ => None,
        }
    }

    /// The identifier of the identity as sixteen bytes.
    pub fn uuid_bytes(&self) -> (bytes: [u8; 16])
        ensures
            bytes@ == self.id_bytes(),
    {
        let marker: u8 = match self {
            TiltColor::Red => 0x10,
            TiltColor::Green => 0x20,
            TiltColor::Black => 0x30,
            TiltColor::Purple => 0x40,
            TiltColor::Orange => 0x50,
            TiltColor::Blue => 0x60,
            TiltColor::Yellow => 0x70,
            TiltColor::Pink => 0x80,
        };
        let bytes: [u8; 16] = [
            0xA4,
            0x95,
            0xBB,
            marker,
            0xC5,
            0xB1,
            0x4B,
            0x44,
            0xB5,
            0x12,
            0x13,
            0x70,
            0xF0,
            0x2D,
            0x74,
            0xDE,
        ];
        bytes
    }

    /// The identifier of the identity.
    pub fn uuid(&self) -> (id: Uuid)
        ensures
            uuid_bytes(id) == self.id_bytes(),
    {
        Uuid::from_bytes(self.uuid_bytes())
    }

    /// Looks sixteen bytes up in the table. Bytes that belong to no identity
    /// are no error: they give `None`.
    pub fn from_uuid_bytes(bytes: &[u8; 16]) -> (color: Option<TiltColor>)
        ensures
            color == color_of_bytes(bytes@),
            color matches Some(c) ==> c.id_bytes() == bytes@,
            color is None ==> forall|c: TiltColor| c.id_bytes() != bytes@,
    {
        let mut i: usize = 0;
        while i < TILT_COLOR_COUNT
            invariant
                i <= TILT_COLOR_COUNT,
                forall|c: TiltColor| c.ordinal() < i ==> c.id_bytes() != bytes@,
            decreases TILT_COLOR_COUNT - i,
        {
            match TiltColor::from_index(i) {
                Some(candidate) => {
                    let id = candidate.uuid_bytes();
                    if same_bytes(&id, bytes) {
                        return Some(candidate);
                    }
                },
                None => {},
            }
            i += 1;
        }
        None
    }

    /// Looks an identifier up in the table.
    pub fn from_uuid(uuid: &Uuid) -> (color: Option<TiltColor>)
        ensures
            color == color_of_bytes(uuid_bytes(*uuid)),
            color matches Some(c) ==> c.id_bytes() == uuid_bytes(*uuid),
            color is None ==> forall|c: TiltColor| c.id_bytes() != uuid_bytes(*uuid),
    {
        TiltColor::from_uuid_bytes(uuid.as_bytes())
    }

    /// The name of the identity.
    pub fn name(&self) -> (name: &'static str)
        ensures
            name@ == self.name_chars(),
    {
        proof {
            reveal_strlit("Red");
            reveal_strlit("Green");
            reveal_strlit("Black");
            reveal_strlit("Purple");
            reveal_strlit("Orange");
            reveal_strlit("Blue");
            reveal_strlit("Yellow");
            reveal_strlit("Pink");
        }
        let name = match self {
            TiltColor::Red => "Red",
            TiltColor::Green => "Green",
            TiltColor::Black => "Black",
            TiltColor::Purple => "Purple",
            TiltColor::Orange => "Orange",
            TiltColor::Blue => "Blue",
            TiltColor::Yellow => "Yellow",
            TiltColor::Pink => "Pink",
        };
        name
    }

    /// The identity with the given name. Names are matched to the letter, and a
    /// name that belongs to no identity gives `None`.
    pub fn from_str(s: &str) -> (color: Option<TiltColor>)
        ensures
            color == color_of_name(s@),
            color matches Some(c) ==> c.name_chars() == s@,
            color is None ==> forall|c: TiltColor| c.name_chars() != s@,
    {
        let mut i: usize = 0;
        while i < TILT_COLOR_COUNT
            invariant
                i <= TILT_COLOR_COUNT,
                forall|c: TiltColor| c.ordinal() < i ==> c.name_chars() != s@,
            decreases TILT_COLOR_COUNT - i,
        {
            match TiltColor::from_index(i) {
                Some(candidate) => {
                    if same_text(candidate.name(), s) {
                        return Some(candidate);
                    }
                },
                None => {},
            }
            i += 1;
        }
        None
    }

    /// Every identity, in table order.
    pub fn all() -> (colors: &'static [TiltColor])
        ensures
            colors@ == all_colors(),
    {
        let colors: &'static [TiltColor] = &[
            TiltColor::Red,
            TiltColor::Green,
            TiltColor::Black,
            TiltColor::Purple,
            TiltColor::Orange,
            TiltColor::Blue,
            TiltColor::Yellow,
            TiltColor::Pink,
        ];
        colors
    }
}

/// Whether two identifiers hold the same bytes.
fn same_bytes(a: &[u8; 16], b: &[u8; 16]) -> (same: bool)
    ensures
        same == (a@ == b@),
{
    let mut i: usize = 0;
    while i < 16
        invariant
            i <= 16,
            forall|j: int| 0 <= j < i ==> a@[j] == b@[j],
        decreases 16 - i,
    {
        if a[i] != b[i] {
            return false;
        }
        i += 1;
    }
    assert(a@ =~= b@);
    true
}

/// Two identities with the same identifier are the same identity.
pub proof fn lemma_id_bytes_injective()
    ensures
        forall|a: TiltColor, b: TiltColor| #[trigger]
            a.id_bytes() == #[trigger] b.id_bytes() ==> a == b,
{
}

/// Two identities with the same name are the same identity.
pub proof fn lemma_names_injective()
    ensures
        forall|a: TiltColor, b: TiltColor| #[trigger]
            a.name_chars() == #[trigger] b.name_chars() ==> a == b,
{
}

/// The table is a bijection: looking up the identifier of an identity gives
/// that identity back, and an identifier that the lookup accepts is the
/// identifier of the identity it gives.
pub proof fn lemma_identifier_round_trip(color: TiltColor, bytes: Seq<u8>)
    ensures
        color_of_bytes(color.id_bytes()) == Some(color),
        color_of_bytes(bytes) matches Some(c) ==> c.id_bytes() == bytes,
        color_of_bytes(bytes) is None <==> forall|c: TiltColor| c.id_bytes() != bytes,
{
}

/// Names and identities correspond one to one in the same way.
pub proof fn lemma_name_round_trip(color: TiltColor, name: Seq<char>)
    ensures
        color_of_name(color.name_chars()) == Some(color),
        color_of_name(name) matches Some(c) ==> c.name_chars() == name,
        color_of_name(name) is None <==> forall|c: TiltColor| c.name_chars() != name,
{
}

} // verus!
