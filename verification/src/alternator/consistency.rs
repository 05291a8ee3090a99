//! Consistency levels of the key-value backend.

use crate::text::{lowercase, str_eq, to_lowercase};
use vstd::prelude::*;

verus! {

#[verifier::external_type_specification]
#[verifier::external_body]
pub struct ExMultiRegionConsistency(aws_sdk_dynamodb::types::MultiRegionConsistency);

/// How far a write has spread before a read sees it.
#[derive(Clone, Copy, Debug, Eq, PartialEq, Structural)]
pub enum Consistency {
    Eventual,
    Strong,
}

impl Default for Consistency {
    fn default() -> (c: Consistency)
        ensures
            c == Consistency::Eventual,
    {
        Consistency::Eventual
    }
}

/// The driver's consistency level of the given name.
pub uninterp spec fn multi_region_consistency(
    name: Seq<char>,
) -> aws_sdk_dynamodb::types::MultiRegionConsistency;

/// Calls the driver's `From<&str>` for `MultiRegionConsistency`, which gives
/// the level that the service calls by that name: `Eventual` for
/// `"EVENTUAL"`, `Strong` for `"STRONG"`. The result depends on the name
/// alone.
#[verifier::external_body]
fn multi_region_consistency_from(name: &str) -> (c: aws_sdk_dynamodb::types::MultiRegionConsistency)
    ensures
        c == multi_region_consistency(name@),
{
    aws_sdk_dynamodb::types::MultiRegionConsistency::from(name)
}

/// The level that the lower-case text `name` names, if any.
pub open spec fn level_named(name: Seq<char>) -> Option<Consistency> {
    if name == "eventual"@ {
        Some(Consistency::Eventual)
    } else if name == "strong"@ {
        Some(Consistency::Strong)
    } else {
        None
    }
}

/// The text of the error for a name that names no level.
pub open spec fn unknown_level_text(name: Seq<char>) -> Seq<char> {
    "Unknown consistency level "@ + name
}

impl Consistency {
    /// The name by which the service and the command line call the level.
    pub open spec fn name(self) -> Seq<char> {
        match self {
            Consistency::Eventual => "EVENTUAL"@,
            Consistency::Strong => "STRONG"@,
        }
    }

    /// The driver's level of the same name.
    pub fn consistency(&self) -> (c: aws_sdk_dynamodb::types::MultiRegionConsistency)
        ensures
            c == multi_region_consistency(self.name()),
    {
        multi_region_consistency_from(self.possible_value_name())
    }

    /// Every level, in the order of declaration.
    pub fn value_variants() -> (all: Vec<Consistency>)
        ensures
            all@ == seq![Consistency::Eventual, Consistency::Strong],
    {
        let mut all: Vec<Consistency> = Vec::new();
        all.push(Consistency::Eventual);
        all.push(Consistency::Strong);
        assert(all@ =~= seq![Consistency::Eventual, Consistency::Strong]);
        all
    }

    /// The level that the lower-case text `name` names.
    pub fn from_lowercase(name: &str) -> (r: Option<Consistency>)
        ensures
            r == level_named(name@),
    {
        if str_eq(name, "eventual") {
            Some(Consistency::Eventual)
        } else if str_eq(name, "strong") {
            Some(Consistency::Strong)
        } else {
            None
        }
    }

    /// The level that `s` names, whatever the case of its letters. Fails
    /// with a message that holds the lower-case form of `s`.
    pub fn from_str(s: &str, _ignore_case: bool) -> (r: Result<Consistency, String>)
        ensures
            match r {
                Ok(c) => level_named(lowercase(s@)) == Some(c),
                Err(text) => level_named(lowercase(s@)) is None && text@ == unknown_level_text(
                    lowercase(s@),
                ),
            },
    {
        let lower = to_lowercase(s);
        match Consistency::from_lowercase(lower.as_str()) {
            Some(c) => Ok(c),
            None => {
                let mut text = String::from_str("Unknown consistency level ");
                text.append(lower.as_str());
                Err(text)
            },
        }
    }

    /// The name of the level as the command line shows it.
    pub fn possible_value_name(&self) -> (name: &'static str)
        ensures
            name@ == self.name(),
    {
        match self {
            Consistency::Eventual => "EVENTUAL",
            Consistency::Strong => "STRONG",
        }
    }
}

} // verus!
