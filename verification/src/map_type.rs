//! The kinds of map that the kernel offers.

use vstd::prelude::*;
use vstd::string::StringExecFns;

verus! {

/// The largest number that names a kind of map here.
pub const LAST_KNOWN: u32 = 26;

/// The number that stands for a kind this library has no name for. The kernel
/// uses it for no kind of map.
pub const UNKNOWN: u32 = 0xffff_ffff;

/// The kind of a map, after the kernel's `enum bpf_map_type`.
#[non_exhaustive]
#[derive(Clone, Copy, Debug, PartialEq, Eq, Structural)]
pub enum MapType {
    Unspec,
    Hash,
    Array,
    ProgArray,
    PerfEventArray,
    PercpuHash,
    PercpuArray,
    StackTrace,
    CgroupArray,
    LruHash,
    LruPercpuHash,
    LpmTrie,
    ArrayOfMaps,
    HashOfMaps,
    Devmap,
    Sockmap,
    Cpumap,
    Xskmap,
    Sockhash,
    CgroupStorage,
    ReuseportSockarray,
    PercpuCgroupStorage,
    Queue,
    Stack,
    SkStorage,
    DevmapHash,
    StructOps,
    /// A kind that the kernel reported and that has no name here. Whether such a
    /// map is acceptable is for the kernel to say.
    Unknown,
}

impl MapType {
    /// The kernel's number for this kind; `UNKNOWN` for `Unknown`.
    pub open spec fn spec_number(&self) -> u32 {
        match self {
            MapType::Unspec => 0,
            MapType::Hash => 1,
            MapType::Array => 2,
            MapType::ProgArray => 3,
            MapType::PerfEventArray => 4,
            MapType::PercpuHash => 5,
            MapType::PercpuArray => 6,
            MapType::StackTrace => 7,
            MapType::CgroupArray => 8,
            MapType::LruHash => 9,
            MapType::LruPercpuHash => 10,
            MapType::LpmTrie => 11,
            MapType::ArrayOfMaps => 12,
            MapType::HashOfMaps => 13,
            MapType::Devmap => 14,
            MapType::Sockmap => 15,
            MapType::Cpumap => 16,
            MapType::Xskmap => 17,
            MapType::Sockhash => 18,
            MapType::CgroupStorage => 19,
            MapType::ReuseportSockarray => 20,
            MapType::PercpuCgroupStorage => 21,
            MapType::Queue => 22,
            MapType::Stack => 23,
            MapType::SkStorage => 24,
            MapType::DevmapHash => 25,
            MapType::StructOps => 26,
            MapType::Unknown => UNKNOWN,
        }
    }

    /// The kind that a number names, if it names one: the kernel's numbers up to
    /// `LAST_KNOWN`, and `UNKNOWN` for `Unknown`.
    pub open spec fn spec_try_from_primitive(number: u32) -> Option<MapType> {
        if number == 0 {
            Some(MapType::Unspec)
        }         else if number == 1 {
            Some(MapType::Hash)
        }         else if number == 2 {
            Some(MapType::Array)
        }         else if number == 3 {
            Some(MapType::ProgArray)
        }         else if number == 4 {
            Some(MapType::PerfEventArray)
        }         else if number == 5 {
            Some(MapType::PercpuHash)
        }         else if number == 6 {
            Some(MapType::PercpuArray)
        }         else if number == 7 {
            Some(MapType::StackTrace)
        }         else if number == 8 {
            Some(MapType::CgroupArray)
        }         else if number == 9 {
            Some(MapType::LruHash)
        }         else if number == 10 {
            Some(MapType::LruPercpuHash)
        }         else if number == 11 {
            Some(MapType::LpmTrie)
        }         else if number == 12 {
            Some(MapType::ArrayOfMaps)
        }         else if number == 13 {
            Some(MapType::HashOfMaps)
        }         else if number == 14 {
            Some(MapType::Devmap)
        }         else if number == 15 {
            Some(MapType::Sockmap)
        }         else if number == 16 {
            Some(MapType::Cpumap)
        }         else if number == 17 {
            Some(MapType::Xskmap)
        }         else if number == 18 {
            Some(MapType::Sockhash)
        }         else if number == 19 {
            Some(MapType::CgroupStorage)
        }         else if number == 20 {
            Some(MapType::ReuseportSockarray)
        }         else if number == 21 {
            Some(MapType::PercpuCgroupStorage)
        }         else if number == 22 {
            Some(MapType::Queue)
        }         else if number == 23 {
            Some(MapType::Stack)
        }         else if number == 24 {
            Some(MapType::SkStorage)
        }         else if number == 25 {
            Some(MapType::DevmapHash)
        }         else if number == 26 {
            Some(MapType::StructOps)
        } else if number == UNKNOWN {
            Some(MapType::Unknown)
        } else {
            None
        }
    }

    /// The kind that a number reported by the kernel stands for: `Unknown` for
    /// every number without a name, so that no report is refused.
    pub open spec fn spec_from_number(number: u32) -> MapType {
        match Self::spec_try_from_primitive(number) {
            Some(kind) => kind,
            None => MapType::Unknown,
        }
    }

    /// The name of this kind, as it is written in this enum.
    pub open spec fn spec_name(&self) -> Seq<char> {
        match self {
            MapType::Unspec => "Unspec"@,
            MapType::Hash => "Hash"@,
            MapType::Array => "Array"@,
            MapType::ProgArray => "ProgArray"@,
            MapType::PerfEventArray => "PerfEventArray"@,
            MapType::PercpuHash => "PercpuHash"@,
            MapType::PercpuArray => "PercpuArray"@,
            MapType::StackTrace => "StackTrace"@,
            MapType::CgroupArray => "CgroupArray"@,
            MapType::LruHash => "LruHash"@,
            MapType::LruPercpuHash => "LruPercpuHash"@,
            MapType::LpmTrie => "LpmTrie"@,
            MapType::ArrayOfMaps => "ArrayOfMaps"@,
            MapType::HashOfMaps => "HashOfMaps"@,
            MapType::Devmap => "Devmap"@,
            MapType::Sockmap => "Sockmap"@,
            MapType::Cpumap => "Cpumap"@,
            MapType::Xskmap => "Xskmap"@,
            MapType::Sockhash => "Sockhash"@,
            MapType::CgroupStorage => "CgroupStorage"@,
            MapType::ReuseportSockarray => "ReuseportSockarray"@,
            MapType::PercpuCgroupStorage => "PercpuCgroupStorage"@,
            MapType::Queue => "Queue"@,
            MapType::Stack => "Stack"@,
            MapType::SkStorage => "SkStorage"@,
            MapType::DevmapHash => "DevmapHash"@,
            MapType::StructOps => "StructOps"@,
            MapType::Unknown => "Unknown"@,
        }
    }

    /// The kernel's number for this kind.
    #[verifier::when_used_as_spec(spec_number)]
    pub fn number(&self) -> (n: u32)
        ensures
            n == self.spec_number(),
    {
        match self {
            MapType::Unspec => 0,
            MapType::Hash => 1,
            MapType::Array => 2,
            MapType::ProgArray => 3,
            MapType::PerfEventArray => 4,
            MapType::PercpuHash => 5,
            MapType::PercpuArray => 6,
            MapType::StackTrace => 7,
            MapType::CgroupArray => 8,
            MapType::LruHash => 9,
            MapType::LruPercpuHash => 10,
            MapType::LpmTrie => 11,
            MapType::ArrayOfMaps => 12,
            MapType::HashOfMaps => 13,
            MapType::Devmap => 14,
            MapType::Sockmap => 15,
            MapType::Cpumap => 16,
            MapType::Xskmap => 17,
            MapType::Sockhash => 18,
            MapType::CgroupStorage => 19,
            MapType::ReuseportSockarray => 20,
            MapType::PercpuCgroupStorage => 21,
            MapType::Queue => 22,
            MapType::Stack => 23,
            MapType::SkStorage => 24,
            MapType::DevmapHash => 25,
            MapType::StructOps => 26,
            MapType::Unknown => UNKNOWN,
        }
    }

    /// The kind that `number` names, or `None` where it names none.
    pub fn try_from_primitive(number: u32) -> (kind: Option<MapType>)
        ensures
            kind == Self::spec_try_from_primitive(number),
    {
        match number {
            0 => Some(MapType::Unspec),
            1 => Some(MapType::Hash),
            2 => Some(MapType::Array),
            3 => Some(MapType::ProgArray),
            4 => Some(MapType::PerfEventArray),
            5 => Some(MapType::PercpuHash),
            6 => Some(MapType::PercpuArray),
            7 => Some(MapType::StackTrace),
            8 => Some(MapType::CgroupArray),
            9 => Some(MapType::LruHash),
            10 => Some(MapType::LruPercpuHash),
            11 => Some(MapType::LpmTrie),
            12 => Some(MapType::ArrayOfMaps),
            13 => Some(MapType::HashOfMaps),
            14 => Some(MapType::Devmap),
            15 => Some(MapType::Sockmap),
            16 => Some(MapType::Cpumap),
            17 => Some(MapType::Xskmap),
            18 => Some(MapType::Sockhash),
            19 => Some(MapType::CgroupStorage),
            20 => Some(MapType::ReuseportSockarray),
            21 => Some(MapType::PercpuCgroupStorage),
            22 => Some(MapType::Queue),
            23 => Some(MapType::Stack),
            24 => Some(MapType::SkStorage),
            25 => Some(MapType::DevmapHash),
            26 => Some(MapType::StructOps),
            UNKNOWN => Some(MapType::Unknown),
            _ => None,
        }
    }

    /// The kind that a number reported by the kernel stands for. Never fails.
    pub fn from_number(number: u32) -> (kind: MapType)
        ensures
            kind == Self::spec_from_number(number),
    {
        match Self::try_from_primitive(number) {
            Some(kind) => kind,
            None => MapType::Unknown,
        }
    }

    /// The name of this kind as text.
    pub fn to_string(&self) -> (text: String)
        ensures
            text@ == self.spec_name(),
    {
        let name = match self {
            MapType::Unspec => "Unspec",
            MapType::Hash => "Hash",
            MapType::Array => "Array",
            MapType::ProgArray => "ProgArray",
            MapType::PerfEventArray => "PerfEventArray",
            MapType::PercpuHash => "PercpuHash",
            MapType::PercpuArray => "PercpuArray",
            MapType::StackTrace => "StackTrace",
            MapType::CgroupArray => "CgroupArray",
            MapType::LruHash => "LruHash",
            MapType::LruPercpuHash => "LruPercpuHash",
            MapType::LpmTrie => "LpmTrie",
            MapType::ArrayOfMaps => "ArrayOfMaps",
            MapType::HashOfMaps => "HashOfMaps",
            MapType::Devmap => "Devmap",
            MapType::Sockmap => "Sockmap",
            MapType::Cpumap => "Cpumap",
            MapType::Xskmap => "Xskmap",
            MapType::Sockhash => "Sockhash",
            MapType::CgroupStorage => "CgroupStorage",
            MapType::ReuseportSockarray => "ReuseportSockarray",
            MapType::PercpuCgroupStorage => "PercpuCgroupStorage",
            MapType::Queue => "Queue",
            MapType::Stack => "Stack",
            MapType::SkStorage => "SkStorage",
            MapType::DevmapHash => "DevmapHash",
            MapType::StructOps => "StructOps",
            MapType::Unknown => "Unknown",
        };
        String::from_str(name)
    }
}

/// Every kind is found again from its number.
pub proof fn number_round_trip(kind: MapType)
    ensures
        MapType::spec_try_from_primitive(kind.spec_number()) == Some(kind),
        MapType::spec_from_number(kind.spec_number()) == kind,
{
}

/// A number names a kind exactly when it is one of the kernel's, up to
/// `LAST_KNOWN`, or is `UNKNOWN`; and when it does, it is that kind's number.
pub proof fn named_numbers(number: u32)
    ensures
        MapType::spec_try_from_primitive(number) is Some <==> number <= LAST_KNOWN || number
            == UNKNOWN,
        MapType::spec_try_from_primitive(number) matches Some(kind) ==> kind.spec_number()
            == number,
{
}

/// `Unknown` is what stands for every number without a name, and its own number
/// differs from that of every other kind.
pub proof fn unknown_stands_apart(number: u32, kind: MapType)
    ensures
        number > LAST_KNOWN ==> MapType::spec_from_number(number) == MapType::Unknown,
        kind != MapType::Unknown ==> kind.spec_number() <= LAST_KNOWN,
        kind != MapType::Unknown ==> kind.spec_number() != MapType::Unknown.spec_number(),
{
}

} // verus!
