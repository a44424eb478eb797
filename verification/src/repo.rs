//! The repository reference: an `author/name` pair parsed from one identifier.
use vstd::prelude::*;

use crate::error::MirrorError;
use crate::text::{spec_split_once, spec_trim, split_once_char, trim_blanks};

verus! {

/// A repository identified by its author and its name.
/// Both parts are non-empty once a reference is constructed.
#[derive(Clone, Debug)]
pub struct RepositoryRef {
    pub author: String,
    pub name: String,
}

impl RepositoryRef {
    /// Both parts of a well-formed reference are non-empty.
    pub open spec fn wf(&self) -> bool {
        self.author@.len() > 0 && self.name@.len() > 0
    }
}

/// The `(author, name)` pair that an identifier string denotes: the first two
/// `/`-separated segments of the trimmed identifier, provided there are at
/// least two and both are non-empty.
pub open spec fn spec_parse_repo_id(id: Seq<char>) -> Option<(Seq<char>, Seq<char>)> {
    match spec_split_once(spec_trim(id), '/') {
        None => None,
        Some(p) => {
            let author = p.0;
            let name = match spec_split_once(p.1, '/') {
                None => p.1,
                Some(q) => q.0,
            };
            if author.len() > 0 && name.len() > 0 {
                Some((author, name))
            } else {
                None
            }
        },
    }
}

/// Parse an `author/name` identifier. The identifier is trimmed, split on
/// `/`, and its first two segments become the reference; anything after a
/// second separator is ignored. An identifier without a separator, or with
/// an empty author or name, is an invalid configuration.
pub fn parse_repo_id(id: &str) -> (r: Result<RepositoryRef, MirrorError>)
    ensures
        match r {
            Ok(rr) => spec_parse_repo_id(id@) == Some((rr.author@, rr.name@)) && rr.wf(),
            Err(e) => spec_parse_repo_id(id@) is None && e == MirrorError::InvalidConfiguration,
        },
{
    let trimmed = trim_blanks(id);
    match split_once_char(trimmed.as_str(), '/') {
        None => Err(MirrorError::InvalidConfiguration),
        Some(p) => {
            let author = p.0;
            let name = match split_once_char(p.1.as_str(), '/') {
                None => p.1,
                Some(q) => q.0,
            };
            if author.unicode_len() > 0 && name.unicode_len() > 0 {
                Ok(RepositoryRef { author, name })
            } else {
                Err(MirrorError::InvalidConfiguration)
            }
        },
    }
}

} // verus!
