//! Consistency levels of the wide-column backend.

use crate::text::{lowercase, str_eq, to_lowercase};
use scylla::frame::types::Consistency as NativeLevel;
use scylla::frame::types::SerialConsistency as NativeSerialLevel;
use vstd::prelude::*;

verus! {

#[verifier::external_type_specification]
#[verifier::external_body]
pub struct ExNativeLevel(NativeLevel);

#[verifier::external_type_specification]
#[verifier::external_body]
pub struct ExNativeSerialLevel(NativeSerialLevel);

/// The driver's level that the wire protocol writes as `code`, if there is
/// one.
pub uninterp spec fn native_level(code: u16) -> Option<NativeLevel>;

/// The driver's serial level that the wire protocol writes as `code`, if
/// there is one.
pub uninterp spec fn native_serial_level(code: i16) -> Option<NativeSerialLevel>;

/// Calls the driver's `TryFrom<u16>` for its `Consistency`, which gives the
/// level that the wire protocol writes as `code`: there is one for each code
/// from 0 to 10 and for no other. The result depends on the code alone.
#[verifier::external_body]
fn native_level_of(code: u16) -> (level: Option<NativeLevel>)
    ensures
        level == native_level(code),
        level is Some <==> code <= 10,
{
    NativeLevel::try_from(code).ok()
}

/// Calls the driver's `TryFrom<i16>` for its `SerialConsistency`, which
/// gives the serial level that the wire protocol writes as `code`: there is
/// one for the codes 8 and 9 and for no other. The result depends on the
/// code alone.
#[verifier::external_body]
fn native_serial_level_of(code: i16) -> (level: Option<NativeSerialLevel>)
    ensures
        level == native_serial_level(code),
        level is Some <==> code == 8 || code == 9,
{
    NativeSerialLevel::try_from(code).ok()
}

/// How many replicas must answer before a read or a write counts as done.
#[derive(Clone, Copy, Debug, Eq, PartialEq, Structural)]
pub enum Consistency {
    Any,
    One,
    Two,
    Three,
    Quorum,
    All,
    LocalOne,
    LocalQuorum,
    EachQuorum,
    /// May be used in reads, to make them go through the consensus protocol.
    Serial,
    /// As `Serial`, within the local datacenter.
    LocalSerial,
}

impl Default for Consistency {
    fn default() -> (c: Consistency)
        ensures
            c == Consistency::LocalQuorum,
    {
        Consistency::LocalQuorum
    }
}

/// The level that the lower-case text `name` names, if any.
pub open spec fn level_named(name: Seq<char>) -> Option<Consistency> {
    if name == "any"@ {
        Some(Consistency::Any)
    } else if name == "one"@ || name == "1"@ {
        Some(Consistency::One)
    } else if name == "two"@ || name == "2"@ {
        Some(Consistency::Two)
    } else if name == "three"@ || name == "3"@ {
        Some(Consistency::Three)
    } else if name == "quorum"@ || name == "q"@ {
        Some(Consistency::Quorum)
    } else if name == "all"@ {
        Some(Consistency::All)
    } else if name == "local_one"@ || name == "localone"@ || name == "l1"@ {
        Some(Consistency::LocalOne)
    } else if name == "local_quorum"@ || name == "localquorum"@ || name == "lq"@ {
        Some(Consistency::LocalQuorum)
    } else if name == "each_quorum"@ || name == "eachquorum"@ || name == "eq"@ {
        Some(Consistency::EachQuorum)
    } else if name == "serial"@ || name == "s"@ {
        Some(Consistency::Serial)
    } else if name == "local_serial"@ || name == "localserial"@ || name == "ls"@ {
        Some(Consistency::LocalSerial)
    } else {
        None
    }
}

/// The text of the error for a name that names no level.
pub open spec fn unknown_level_text(name: Seq<char>) -> Seq<char> {
    "Unknown consistency level "@ + name
}

impl Consistency {
    /// The number that the wire protocol writes for the level.
    pub open spec fn code(self) -> u16 {
        match self {
            Consistency::Any => 0,
            Consistency::One => 1,
            Consistency::Two => 2,
            Consistency::Three => 3,
            Consistency::Quorum => 4,
            Consistency::All => 5,
            Consistency::LocalQuorum => 6,
            Consistency::EachQuorum => 7,
            Consistency::Serial => 8,
            Consistency::LocalSerial => 9,
            Consistency::LocalOne => 10,
        }
    }

    /// Computes [`Consistency::code`].
    pub fn wire_code(&self) -> (code: u16)
        ensures
            code == self.code(),
    {
        match self {
            Consistency::Any => 0,
            Consistency::One => 1,
            Consistency::Two => 2,
            Consistency::Three => 3,
            Consistency::Quorum => 4,
            Consistency::All => 5,
            Consistency::LocalQuorum => 6,
            Consistency::EachQuorum => 7,
            Consistency::Serial => 8,
            Consistency::LocalSerial => 9,
            Consistency::LocalOne => 10,
        }
    }

    /// The driver's level: the one that the wire protocol writes with the
    /// same number.
    pub fn consistency(&self) -> (c: NativeLevel)
        ensures
            Some(c) == native_level(self.code()),
    {
        native_level_of(self.wire_code()).unwrap()
    }

    /// The name by which the command line shows the level.
    pub open spec fn name(self) -> Seq<char> {
        match self {
            Consistency::Any => "ANY"@,
            Consistency::One => "ONE"@,
            Consistency::Two => "TWO"@,
            Consistency::Three => "THREE"@,
            Consistency::Quorum => "QUORUM"@,
            Consistency::All => "ALL"@,
            Consistency::LocalOne => "LOCAL_ONE"@,
            Consistency::LocalQuorum => "LOCAL_QUORUM"@,
            Consistency::EachQuorum => "EACH_QUORUM"@,
            Consistency::Serial => "SERIAL"@,
            Consistency::LocalSerial => "LOCAL_SERIAL"@,
        }
    }

    /// Every level, in the order of declaration.
    pub fn value_variants() -> (all: Vec<Consistency>)
        ensures
            all@ == seq![
                Consistency::Any,
                Consistency::One,
                Consistency::Two,
                Consistency::Three,
                Consistency::Quorum,
                Consistency::All,
                Consistency::LocalOne,
                Consistency::LocalQuorum,
                Consistency::EachQuorum,
                Consistency::Serial,
                Consistency::LocalSerial,
            ],
    {
        let mut all: Vec<Consistency> = Vec::new();
        all.push(Consistency::Any);
        all.push(Consistency::One);
        all.push(Consistency::Two);
        all.push(Consistency::Three);
        all.push(Consistency::Quorum);
        all.push(Consistency::All);
        all.push(Consistency::LocalOne);
        all.push(Consistency::LocalQuorum);
        all.push(Consistency::EachQuorum);
        all.push(Consistency::Serial);
        all.push(Consistency::LocalSerial);
        assert(all@ =~= seq![
            Consistency::Any,
            Consistency::One,
            Consistency::Two,
            Consistency::Three,
            Consistency::Quorum,
            Consistency::All,
            Consistency::LocalOne,
            Consistency::LocalQuorum,
            Consistency::EachQuorum,
            Consistency::Serial,
            Consistency::LocalSerial,
        ]);
        all
    }

    /// The level that the lower-case text `name` names.
    pub fn from_lowercase(name: &str) -> (r: Option<Consistency>)
        ensures
            r == level_named(name@),
    {
        if str_eq(name, "any") {
            Some(Consistency::Any)
        } else if str_eq(name, "one") || str_eq(name, "1") {
            Some(Consistency::One)
        } else if str_eq(name, "two") || str_eq(name, "2") {
            Some(Consistency::Two)
        } else if str_eq(name, "three") || str_eq(name, "3") {
            Some(Consistency::Three)
        } else if str_eq(name, "quorum") || str_eq(name, "q") {
            Some(Consistency::Quorum)
        } else if str_eq(name, "all") {
            Some(Consistency::All)
        } else if str_eq(name, "local_one") || str_eq(name, "localone") || str_eq(name, "l1") {
            Some(Consistency::LocalOne)
        } else if str_eq(name, "local_quorum") || str_eq(name, "localquorum") || str_eq(name, "lq") {
            Some(Consistency::LocalQuorum)
        } else if str_eq(name, "each_quorum") || str_eq(name, "eachquorum") || str_eq(name, "eq") {
            Some(Consistency::EachQuorum)
        } else if str_eq(name, "serial") || str_eq(name, "s") {
            Some(Consistency::Serial)
        } else if str_eq(name, "local_serial") || str_eq(name, "localserial") || str_eq(name, "ls") {
            Some(Consistency::LocalSerial)
        } else {
            None
        }
    }

    /// The level that `s` names, whatever the case of its letters. Fails
    /// with a message that holds the lower-case form of `s`.
    pub fn from_str(s: &str, _ignore_case: bool) -> (r: Result<Consistency, String>)
        ensures
            match r {
                Ok(c) => level_named(lowercase(s@)) == Some(c),
                Err(text) => level_named(lowercase(s@)) is None && text@ == unknown_level_text(
                    lowercase(s@),
                ),
            },
    {
        let lower = to_lowercase(s);
        match Consistency::from_lowercase(lower.as_str()) {
            Some(c) => Ok(c),
            None => {
                let mut text = String::from_str("Unknown consistency level ");
                text.append(lower.as_str());
                Err(text)
            },
        }
    }

    /// The name of the level as the command line shows it.
    pub fn possible_value_name(&self) -> (name: &'static str)
        ensures
            name@ == self.name(),
    {
        match self {
            Consistency::Any => "ANY",
            Consistency::One => "ONE",
            Consistency::Two => "TWO",
            Consistency::Three => "THREE",
            Consistency::Quorum => "QUORUM",
            Consistency::All => "ALL",
            Consistency::LocalOne => "LOCAL_ONE",
            Consistency::LocalQuorum => "LOCAL_QUORUM",
            Consistency::EachQuorum => "EACH_QUORUM",
            Consistency::Serial => "SERIAL",
            Consistency::LocalSerial => "LOCAL_SERIAL",
        }
    }
}

/// The consistency of the consensus phase of a conditional write.
#[derive(Clone, Copy, Debug, Eq, PartialEq, Structural)]
pub enum SerialConsistency {
    Serial,
    LocalSerial,
}

impl Default for SerialConsistency {
    fn default() -> (c: SerialConsistency)
        ensures
            c == SerialConsistency::LocalSerial,
    {
        SerialConsistency::LocalSerial
    }
}

/// The level that the lower-case text `name` names, if any.
pub open spec fn serial_level_named(name: Seq<char>) -> Option<SerialConsistency> {
    if name == "serial"@ || name == "s"@ {
        Some(SerialConsistency::Serial)
    } else if name == "local_serial"@ || name == "localserial"@ || name == "ls"@ {
        Some(SerialConsistency::LocalSerial)
    } else {
        None
    }
}

/// The text of the error for a name that names no level.
pub open spec fn unknown_serial_level_text(name: Seq<char>) -> Seq<char> {
    "Unknown serial consistency level "@ + name
}

impl SerialConsistency {
    /// The number that the wire protocol writes for the level.
    pub open spec fn code(self) -> i16 {
        match self {
            SerialConsistency::Serial => 8,
            SerialConsistency::LocalSerial => 9,
        }
    }

    /// Computes [`SerialConsistency::code`].
    pub fn wire_code(&self) -> (code: i16)
        ensures
            code == self.code(),
    {
        match self {
            SerialConsistency::Serial => 8,
            SerialConsistency::LocalSerial => 9,
        }
    }

    /// The driver's serial level: the one that the wire protocol writes with
    /// the same number.
    pub fn serial_consistency(&self) -> (c: NativeSerialLevel)
        ensures
            Some(c) == native_serial_level(self.code()),
    {
        native_serial_level_of(self.wire_code()).unwrap()
    }

    /// The name by which the command line shows the level.
    pub open spec fn name(self) -> Seq<char> {
        match self {
            SerialConsistency::Serial => "SERIAL"@,
            SerialConsistency::LocalSerial => "LOCAL_SERIAL"@,
        }
    }

    /// Every level, in the order of declaration.
    pub fn value_variants() -> (all: Vec<SerialConsistency>)
        ensures
            all@ == seq![
                SerialConsistency::Serial,
                SerialConsistency::LocalSerial,
            ],
    {
        let mut all: Vec<SerialConsistency> = Vec::new();
        all.push(SerialConsistency::Serial);
        all.push(SerialConsistency::LocalSerial);
        assert(all@ =~= seq![
            SerialConsistency::Serial,
            SerialConsistency::LocalSerial,
        ]);
        all
    }

    /// The level that the lower-case text `name` names.
    pub fn from_lowercase(name: &str) -> (r: Option<SerialConsistency>)
        ensures
            r == serial_level_named(name@),
    {
        if str_eq(name, "serial") || str_eq(name, "s") {
            Some(SerialConsistency::Serial)
        } else if str_eq(name, "local_serial") || str_eq(name, "localserial") || str_eq(name, "ls") {
            Some(SerialConsistency::LocalSerial)
        } else {
            None
        }
    }

    /// The level that `s` names, whatever the case of its letters. Fails
    /// with a message that holds the lower-case form of `s`.
    pub fn from_str(s: &str, _ignore_case: bool) -> (r: Result<SerialConsistency, String>)
        ensures
            match r {
                Ok(c) => serial_level_named(lowercase(s@)) == Some(c),
                Err(text) => serial_level_named(lowercase(s@)) is None && text@ == unknown_serial_level_text(
                    lowercase(s@),
                ),
            },
    {
        let lower = to_lowercase(s);
        match SerialConsistency::from_lowercase(lower.as_str()) {
            Some(c) => Ok(c),
            None => {
                let mut text = String::from_str("Unknown serial consistency level ");
                text.append(lower.as_str());
                Err(text)
            },
        }
    }

    /// The name of the level as the command line shows it.
    pub fn possible_value_name(&self) -> (name: &'static str)
        ensures
            name@ == self.name(),
    {
        match self {
            SerialConsistency::Serial => "SERIAL",
            SerialConsistency::LocalSerial => "LOCAL_SERIAL",
        }
    }
}

} // verus!
