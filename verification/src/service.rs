//! The versions of a service, and the search for the one that is active.

use vstd::prelude::*;

verus! {

/// What the listing of a service's versions tells of one version. Either
/// field may be missing from the listing.
#[derive(Clone, Copy, Debug, PartialEq, Eq)]
pub struct Version {
    pub active: Option<bool>,
    pub number: Option<i32>,
}

/// The outcome of looking for the active version.
#[derive(Clone, Copy, Debug, PartialEq, Eq)]
pub enum ActiveVersion {
    /// The number of the first version that is active.
    Number(i32),
    /// A version at or before the first active one lacks what is read of it.
    Incomplete,
    /// No version is active.
    Missing,
}

/// The versions are read in their order. For each, whether it is active
/// must be known; the first active one must have a number, which is the
/// outcome.
pub open spec fn spec_active_version(versions: Seq<Version>) -> ActiveVersion
    decreases versions.len(),
{
    if versions.len() == 0 {
        ActiveVersion::Missing
    } else {
        match versions[0].active {
            None => ActiveVersion::Incomplete,
            Some(true) => match versions[0].number {
                Some(number) => ActiveVersion::Number(number),
                None => ActiveVersion::Incomplete,
            },
            Some(false) => spec_active_version(versions.skip(1)),
        }
    }
}

/// Looks for the active version among `versions`.
pub fn active_version(versions: &Vec<Version>) -> (r: ActiveVersion)
    ensures
        r == spec_active_version(versions@),
{
    let mut i: usize = 0;
    assert(versions@.skip(0) == versions@);
    while i < versions.len()
        invariant
            i <= versions.len(),
            spec_active_version(versions@) == spec_active_version(versions@.skip(i as int)),
        decreases versions.len() - i,
    {
        let version = versions[i];
        assert(versions@.skip(i as int)[0] == version);
        match version.active {
            None => {
                return ActiveVersion::Incomplete;
            },
            Some(true) => {
                return match version.number {
                    Some(number) => ActiveVersion::Number(number),
                    None => ActiveVersion::Incomplete,
                };
            },
            Some(false) => {},
        }
        assert(versions@.skip(i as int).skip(1) == versions@.skip(i + 1));
        i += 1;
    }
    ActiveVersion::Missing
}

} // verus!
