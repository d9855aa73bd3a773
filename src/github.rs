//! Repository metadata as the remote client reports it.

use vstd::prelude::*;

verus! {

/// Metadata of one remote repository.
#[derive(Debug, Clone, PartialEq, Eq)]
pub struct RepoInfo {
    pub name: String,
    pub full_name: String,
    pub language: Option<String>,
    pub stars: u32,
    pub forks: u32,
}

impl RepoInfo {
    /// Metadata from the remote client's fields: an absent full name is
    /// empty, absent counts are zero.
    pub fn from_remote(
        name: String,
        full_name: Option<String>,
        language: Option<String>,
        stargazers_count: Option<u32>,
        forks_count: Option<u32>,
    ) -> (r: RepoInfo)
        ensures
            r.name == name,
            r.full_name@ == (match full_name {
                Some(s) => s@,
                None => Seq::<char>::empty(),
            }),
            r.language == language,
            r.stars == (match stargazers_count {
                Some(n) => n,
                None => 0,
            }),
            r.forks == (match forks_count {
                Some(n) => n,
                None => 0,
            }),
    {
        let full_name = match full_name {
            Some(s) => s,
            None => String::new(),
        };
        let stars = match stargazers_count {
            Some(n) => n,
            None => 0,
        };
        let forks = match forks_count {
            Some(n) => n,
            None => 0,
        };
        RepoInfo { name, full_name, language, stars, forks }
    }
}

} // verus!
