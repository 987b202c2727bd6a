//! The backends that can hold the tasks between runs.

use vstd::prelude::*;

use crate::text::{lowercase, same_text};

verus! {

/// A persistence backend. `CSV` is the one in use; `Postgres` is a
/// placeholder with no behaviour behind it.
#[derive(Clone, Copy, Debug, PartialEq, Eq, Structural)]
pub enum SupportedPersistence {
    CSV,
    Postgres,
}

impl SupportedPersistence {
    /// The name of a backend.
    pub open spec fn text(self) -> Seq<char> {
        match self {
            SupportedPersistence::CSV => "CSV"@,
            SupportedPersistence::Postgres => "Postgres"@,
        }
    }

    /// The backend that a lowercase name stands for, if any.
    pub open spec fn parse_normalized(t: Seq<char>) -> Result<SupportedPersistence, ()> {
        if t == "csv"@ {
            Ok(SupportedPersistence::CSV)
        } else if t == "postgres"@ {
            Ok(SupportedPersistence::Postgres)
        } else {
            Err(())
        }
    }

    /// The backend that a name stands for once it is put in lower case, if
    /// any.
    pub open spec fn parse(t: Seq<char>) -> Result<SupportedPersistence, ()> {
        Self::parse_normalized(lowercase(t))
    }

    /// The name of this backend: "CSV" or "Postgres".
    pub fn to_string(&self) -> (res: String)
        ensures
            res@ == self.text(),
    {
        match self {
            SupportedPersistence::CSV => "CSV".to_owned(),
            SupportedPersistence::Postgres => "Postgres".to_owned(),
        }
    }

    /// Reads a backend from a name that is already in lower case.
    pub fn from_normalized(text: &str) -> (res: Result<SupportedPersistence, ()>)
        ensures
            res == Self::parse_normalized(text@),
    {
        if same_text(text, "csv") {
            Ok(SupportedPersistence::CSV)
        } else if same_text(text, "postgres") {
            Ok(SupportedPersistence::Postgres)
        } else {
            Err(())
        }
    }

    /// Reads a backend from its name, in any letter case. Whitespace around
    /// the name is not removed, and any other text is refused.
    pub fn from_str(s: &str) -> (res: Result<SupportedPersistence, ()>)
        ensures
            res == Self::parse(s@),
    {
        let lowered = s.to_lowercase();
        Self::from_normalized(lowered.as_str())
    }
}

} // verus!
