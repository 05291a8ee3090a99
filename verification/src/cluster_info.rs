//! What a backend tells about itself, for the report's header.

use vstd::prelude::*;

verus! {

/// A description of the cluster under test.
#[derive(Debug, Clone, PartialEq, Eq)]
pub struct ClusterInfo {
    pub name: String,
    pub db_version: String,
}

/// One row of the versions table of a wide-column cluster, as far as it was
/// found there.
#[derive(Debug)]
pub struct VersionsItem {
    pub version: Option<String>,
    pub build_id: Option<String>,
}

/// The text that stands for a text that was not found.
pub open spec fn or_unknown(text: Option<String>) -> Seq<char> {
    match text {
        Some(t) => t@,
        None => "unknown"@,
    }
}

/// The version line of a wide-column cluster.
pub open spec fn scylla_version_text(item: VersionsItem) -> Seq<char> {
    "ScyllaDB "@ + or_unknown(item.version) + " with build-id "@ + or_unknown(item.build_id)
}

fn push_or_unknown(out: &mut String, text: &Option<String>)
    ensures
        final(out)@ == old(out)@ + or_unknown(*text),
{
    match text {
        Some(t) => out.append(t.as_str()),
        None => out.append("unknown"),
    }
}

impl ClusterInfo {
    /// The description of a wide-column cluster whose versions table holds
    /// `item`: no name, and a version line made of the item's version and
    /// build id, with `unknown` for what the item lacks.
    pub fn of_scylla(item: &VersionsItem) -> (info: ClusterInfo)
        ensures
            info.name@ == Seq::<char>::empty(),
            info.db_version@ == scylla_version_text(*item),
    {
        let mut db_version = String::from_str("ScyllaDB ");
        push_or_unknown(&mut db_version, &item.version);
        db_version.append(" with build-id ");
        push_or_unknown(&mut db_version, &item.build_id);
        ClusterInfo { name: String::new(), db_version }
    }

    /// The description of the managed key-value service, which has no
    /// version to tell.
    pub fn of_dynamodb() -> (info: ClusterInfo)
        ensures
            info.name@ == "DynamoDB"@,
            info.db_version@ == "DynamoDB"@,
    {
        ClusterInfo {
            name: String::from_str("DynamoDB"),
            db_version: String::from_str("DynamoDB"),
        }
    }

    /// The description of a backend that does not tell what it is.
    pub fn unavailable() -> (info: ClusterInfo)
        ensures
            info.name@ == Seq::<char>::empty(),
            info.db_version@ == "unavailable"@,
    {
        ClusterInfo { name: String::new(), db_version: String::from_str("unavailable") }
    }

    /// The description to report after a look at the versions table that
    /// found `item`, or nothing: a backend without such a table is reported
    /// as unavailable, and the run goes on.
    pub fn of_versions(item: &Option<VersionsItem>) -> (info: ClusterInfo)
        ensures
            info.name@ == Seq::<char>::empty(),
            info.db_version@ == match *item {
                Some(found) => scylla_version_text(found),
                None => "unavailable"@,
            },
    {
        match item {
            Some(found) => ClusterInfo::of_scylla(found),
            None => ClusterInfo::unavailable(),
        }
    }
}

} // verus!
