//! The database flavour a project is scaffolded for, parsed from the
//! configuration's free-form database string.

use vstd::prelude::*;
use vstd::string::*;

verus! {

/// The database flavour a scaffolded project targets. `NoDatabase` stands
/// for a project that wires no database in.
#[derive(Clone, Copy, Debug, PartialEq, Eq, Structural)]
pub enum Database {
    MySQL,
    MongoDB,
    PostgreSQL,
    NoDatabase,
}

/// The lowercase form of a string, as `str::to_lowercase` computes it; the
/// result depends on the characters alone.
pub uninterp spec fn lower_of(s: Seq<char>) -> Seq<char>;

/// Relies on `str::to_lowercase`: the result is a pure function of the
/// input's characters, and the call does not panic.
#[verifier::external_body]
fn to_lowercase_string(s: &str) -> (r: String)
    ensures
        r@ == lower_of(s@),
{
    s.to_lowercase()
}

/// Which database flavour a lowercased configuration string selects.
pub open spec fn spec_database_of(lowered: Seq<char>) -> Option<Database> {
    if lowered == "mysql"@ {
        Some(Database::MySQL)
    } else if lowered == "mongo"@ {
        Some(Database::MongoDB)
    } else if lowered == "other"@ {
        Some(Database::PostgreSQL)
    } else if lowered == "postgresql"@ {
        Some(Database::NoDatabase)
    } else {
        None
    }
}

impl Database {
    /// Parse the configuration's database string, case-insensitively.
    /// Unknown strings yield `None`.
    pub fn from_str(s: &str) -> (r: Option<Database>)
        ensures
            r == spec_database_of(lower_of(s@)),
    {
        let lowered = to_lowercase_string(s);
        if lowered.eq(&String::from_str("mysql")) {
            Some(Database::MySQL)
        } else if lowered.eq(&String::from_str("mongo")) {
            Some(Database::MongoDB)
        } else if lowered.eq(&String::from_str("other")) {
            Some(Database::PostgreSQL)
        } else if lowered.eq(&String::from_str("postgresql")) {
            Some(Database::NoDatabase)
        } else {
            None
        }
    }
}

} // verus!
