//! The record types that the common header's type field can name.

use num_traits::FromPrimitive;
use vstd::prelude::*;

verus! {

/// The type of an MRT record.  Types `NULL` to `BGP4PLUS_01` are deprecated.
#[allow(non_camel_case_types)]
#[derive(Debug, Copy, Clone, PartialEq, Eq, Structural)]
pub enum EntryType {
    NULL,
    START,
    DIE,
    I_AM_DEAD,
    PEER_DOWN,
    BGP,
    RIP,
    IDRP,
    RIPNG,
    BGP4PLUS,
    BGP4PLUS_01,
    OSPFv2,
    TABLE_DUMP,
    TABLE_DUMP_V2,
    BGP4MP,
    BGP4MP_ET,
    ISIS,
    ISIS_ET,
    OSPFv3,
    OSPFv3_ET,
}

/// The family of body decoder that a record's payload is handed to.
#[derive(Debug, Copy, Clone, PartialEq, Eq, Structural)]
pub enum MessageKind {
    /// A routing-table snapshot in the first encoding.
    TableDump,
    /// A routing-table snapshot in the second, current encoding.
    TableDumpV2,
    /// A captured live routing protocol message.
    Bgp4Mp,
}

/// The record type that the type code `code` stands for, or `None` where the
/// format assigns no type to `code`.
pub open spec fn entry_type_of(code: u16) -> Option<EntryType> {
    if code == 0 {
        Some(EntryType::NULL)
    } else if code == 1 {
        Some(EntryType::START)
    } else if code == 2 {
        Some(EntryType::DIE)
    } else if code == 3 {
        Some(EntryType::I_AM_DEAD)
    } else if code == 4 {
        Some(EntryType::PEER_DOWN)
    } else if code == 5 {
        Some(EntryType::BGP)
    } else if code == 6 {
        Some(EntryType::RIP)
    } else if code == 7 {
        Some(EntryType::IDRP)
    } else if code == 8 {
        Some(EntryType::RIPNG)
    } else if code == 9 {
        Some(EntryType::BGP4PLUS)
    } else if code == 10 {
        Some(EntryType::BGP4PLUS_01)
    } else if code == 11 {
        Some(EntryType::OSPFv2)
    } else if code == 12 {
        Some(EntryType::TABLE_DUMP)
    } else if code == 13 {
        Some(EntryType::TABLE_DUMP_V2)
    } else if code == 16 {
        Some(EntryType::BGP4MP)
    } else if code == 17 {
        Some(EntryType::BGP4MP_ET)
    } else if code == 32 {
        Some(EntryType::ISIS)
    } else if code == 33 {
        Some(EntryType::ISIS_ET)
    } else if code == 48 {
        Some(EntryType::OSPFv3)
    } else if code == 49 {
        Some(EntryType::OSPFv3_ET)
    } else {
        None
    }
}

/// Checks a type code through `bgp_models::prelude::EntryType::from_u16`.
///
/// Trusted: the outside function returns the variant whose discriminant is
/// `code`, and `None` where no variant has it; the variant is handed back as
/// its discriminant.  The discriminants are the codes that
/// [`entry_type_of`] lists.
#[verifier::external_body]
fn known_type_code(code: u16) -> (res: Option<u16>)
    ensures
        res == (if entry_type_of(code) is Some {
            Some(code)
        } else {
            None
        }),
{
    match bgp_models::prelude::EntryType::from_u16(code) {
        Some(entry_type) => Some(entry_type as u16),
        None => None,
    }
}

impl EntryType {
    /// The code that stands for this type in the header's type field.
    pub open spec fn wire_code(self) -> u16 {
        match self {
            EntryType::NULL => 0,
            EntryType::START => 1,
            EntryType::DIE => 2,
            EntryType::I_AM_DEAD => 3,
            EntryType::PEER_DOWN => 4,
            EntryType::BGP => 5,
            EntryType::RIP => 6,
            EntryType::IDRP => 7,
            EntryType::RIPNG => 8,
            EntryType::BGP4PLUS => 9,
            EntryType::BGP4PLUS_01 => 10,
            EntryType::OSPFv2 => 11,
            EntryType::TABLE_DUMP => 12,
            EntryType::TABLE_DUMP_V2 => 13,
            EntryType::BGP4MP => 16,
            EntryType::BGP4MP_ET => 17,
            EntryType::ISIS => 32,
            EntryType::ISIS_ET => 33,
            EntryType::OSPFv3 => 48,
            EntryType::OSPFv3_ET => 49,
        }
    }

    /// The name of the type, as the format's registry writes it.
    pub open spec fn name(self) -> Seq<char> {
        match self {
            EntryType::NULL => "NULL"@,
            EntryType::START => "START"@,
            EntryType::DIE => "DIE"@,
            EntryType::I_AM_DEAD => "I_AM_DEAD"@,
            EntryType::PEER_DOWN => "PEER_DOWN"@,
            EntryType::BGP => "BGP"@,
            EntryType::RIP => "RIP"@,
            EntryType::IDRP => "IDRP"@,
            EntryType::RIPNG => "RIPNG"@,
            EntryType::BGP4PLUS => "BGP4PLUS"@,
            EntryType::BGP4PLUS_01 => "BGP4PLUS_01"@,
            EntryType::OSPFv2 => "OSPFv2"@,
            EntryType::TABLE_DUMP => "TABLE_DUMP"@,
            EntryType::TABLE_DUMP_V2 => "TABLE_DUMP_V2"@,
            EntryType::BGP4MP => "BGP4MP"@,
            EntryType::BGP4MP_ET => "BGP4MP_ET"@,
            EntryType::ISIS => "ISIS"@,
            EntryType::ISIS_ET => "ISIS_ET"@,
            EntryType::OSPFv3 => "OSPFv3"@,
            EntryType::OSPFv3_ET => "OSPFv3_ET"@,
        }
    }

    /// Whether records of this type carry the extended header, with a
    /// microsecond timestamp after the length field.
    pub open spec fn is_extended(self) -> bool {
        self == EntryType::BGP4MP_ET
    }

    /// The decoder family that records of this type are routed to, or `None`
    /// where the type has no decoder.
    pub open spec fn route(self) -> Option<MessageKind> {
        match self {
            EntryType::TABLE_DUMP => Some(MessageKind::TableDump),
            EntryType::TABLE_DUMP_V2 => Some(MessageKind::TableDumpV2),
            EntryType::BGP4MP => Some(MessageKind::Bgp4Mp),
            EntryType::BGP4MP_ET => Some(MessageKind::Bgp4Mp),
            _ => None,
        }
    }

    /// The type that a known code stands for.
    fn of_known_code(code: u16) -> (entry_type: EntryType)
        requires
            entry_type_of(code) is Some,
        ensures
            entry_type_of(code) == Some(entry_type),
    {
        match code {
            0 => EntryType::NULL,
            1 => EntryType::START,
            2 => EntryType::DIE,
            3 => EntryType::I_AM_DEAD,
            4 => EntryType::PEER_DOWN,
            5 => EntryType::BGP,
            6 => EntryType::RIP,
            7 => EntryType::IDRP,
            8 => EntryType::RIPNG,
            9 => EntryType::BGP4PLUS,
            10 => EntryType::BGP4PLUS_01,
            11 => EntryType::OSPFv2,
            12 => EntryType::TABLE_DUMP,
            13 => EntryType::TABLE_DUMP_V2,
            16 => EntryType::BGP4MP,
            17 => EntryType::BGP4MP_ET,
            32 => EntryType::ISIS,
            33 => EntryType::ISIS_ET,
            48 => EntryType::OSPFv3,
            _ => EntryType::OSPFv3_ET,
        }
    }

    /// The record type that `code` stands for, or `None` for a code that the
    /// format assigns to no type.
    pub fn from_u16(code: u16) -> (res: Option<EntryType>)
        ensures
            res == entry_type_of(code),
    {
        match known_type_code(code) {
            Some(known) => Some(EntryType::of_known_code(known)),
            None => None,
        }
    }

    /// The code that stands for this type in the header's type field.
    pub fn code(&self) -> (code: u16)
        ensures
            code == self.wire_code(),
    {
        match self {
            EntryType::NULL => 0,
            EntryType::START => 1,
            EntryType::DIE => 2,
            EntryType::I_AM_DEAD => 3,
            EntryType::PEER_DOWN => 4,
            EntryType::BGP => 5,
            EntryType::RIP => 6,
            EntryType::IDRP => 7,
            EntryType::RIPNG => 8,
            EntryType::BGP4PLUS => 9,
            EntryType::BGP4PLUS_01 => 10,
            EntryType::OSPFv2 => 11,
            EntryType::TABLE_DUMP => 12,
            EntryType::TABLE_DUMP_V2 => 13,
            EntryType::BGP4MP => 16,
            EntryType::BGP4MP_ET => 17,
            EntryType::ISIS => 32,
            EntryType::ISIS_ET => 33,
            EntryType::OSPFv3 => 48,
            EntryType::OSPFv3_ET => 49,
        }
    }

    /// The name of the type, as the format's registry writes it.
    pub fn as_str(&self) -> (name: &'static str)
        ensures
            name@ == self.name(),
    {
        match self {
            EntryType::NULL => "NULL",
            EntryType::START => "START",
            EntryType::DIE => "DIE",
            EntryType::I_AM_DEAD => "I_AM_DEAD",
            EntryType::PEER_DOWN => "PEER_DOWN",
            EntryType::BGP => "BGP",
            EntryType::RIP => "RIP",
            EntryType::IDRP => "IDRP",
            EntryType::RIPNG => "RIPNG",
            EntryType::BGP4PLUS => "BGP4PLUS",
            EntryType::BGP4PLUS_01 => "BGP4PLUS_01",
            EntryType::OSPFv2 => "OSPFv2",
            EntryType::TABLE_DUMP => "TABLE_DUMP",
            EntryType::TABLE_DUMP_V2 => "TABLE_DUMP_V2",
            EntryType::BGP4MP => "BGP4MP",
            EntryType::BGP4MP_ET => "BGP4MP_ET",
            EntryType::ISIS => "ISIS",
            EntryType::ISIS_ET => "ISIS_ET",
            EntryType::OSPFv3 => "OSPFv3",
            EntryType::OSPFv3_ET => "OSPFv3_ET",
        }
    }

    /// The decoder family that records of this type are routed to, or `None`
    /// where the type has no decoder.
    pub fn message_kind(&self) -> (kind: Option<MessageKind>)
        ensures
            kind == self.route(),
    {
        match self {
            EntryType::TABLE_DUMP => Some(MessageKind::TableDump),
            EntryType::TABLE_DUMP_V2 => Some(MessageKind::TableDumpV2),
            EntryType::BGP4MP | EntryType::BGP4MP_ET => Some(MessageKind::Bgp4Mp),
            _ => None,
        }
    }
}

/// Every type has a code of its own: the code of a type stands for that type,
/// and the type that a code stands for has that code.
pub proof fn lemma_type_code_round_trip(entry_type: EntryType, code: u16)
    ensures
        entry_type_of(entry_type.wire_code()) == Some(entry_type),
        entry_type_of(code) == Some(entry_type) ==> entry_type.wire_code() == code,
{
}

} // verus!
