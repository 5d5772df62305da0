//! The language edition a package is compiled under.

use vstd::prelude::*;

verus! {

/// A recognized language edition. A package whose edition identifier does not
/// name one of these cannot be classified for compilation.
#[derive(Debug, Clone, Copy, PartialEq, Eq, Structural)]
pub enum Edition {
    Edition2015,
    Edition2018,
}

/// What `Edition::parse` returns for a given identifier.
pub open spec fn parse_edition_spec(s: Seq<char>) -> Option<Edition> {
    if s == "2015"@ {
        Some(Edition::Edition2015)
    } else if s == "2018"@ {
        Some(Edition::Edition2018)
    } else {
        None
    }
}

impl Edition {
    /// Parses an edition identifier; `None` marks an unrecognized value.
    pub fn parse(s: &String) -> (r: Option<Edition>)
        ensures
            r == parse_edition_spec(s@),
    {
        if *s == "2015".to_owned() {
            Some(Edition::Edition2015)
        } else if *s == "2018".to_owned() {
            Some(Edition::Edition2018)
        } else {
            None
        }
    }
}

} // verus!
