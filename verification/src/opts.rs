//! The scan's configuration: gitignore policy and exclusion sets.

use vstd::prelude::*;

verus! {

/// How entries matched by the active `.gitignore` ruleset are treated.
#[derive(Clone, Debug)]
pub enum GitignoreOpt {
    /// Gitignore matching is disabled entirely.
    GiOff,
    /// Matched entries are removed from the listing.
    GiIgnore,
    /// Matched directories are listed but not entered.
    GiStop,
    /// Matched entries are rendered dimmed.
    GiDim,
    /// Matched entries are rendered dimmed, and matched directories are not
    /// entered.
    GiDimAndStop,
}

impl GitignoreOpt {
    /// Whether `.gitignore` files are read and matched at all.
    pub open spec fn spec_enabled(self) -> bool {
        !(self is GiOff)
    }

    /// Whether matched entries are rendered dimmed.
    pub open spec fn spec_dims(self) -> bool {
        self is GiDim || self is GiDimAndStop
    }

    /// Whether matched entries are dropped from the listing.
    pub open spec fn spec_ignores(self) -> bool {
        self is GiIgnore
    }

    /// Whether matched directories are kept out of the recursion.
    pub open spec fn spec_stops(self) -> bool {
        self is GiStop || self is GiDimAndStop
    }

    pub fn is_enabled(&self) -> (r: bool)
        ensures
            r == self.spec_enabled(),
    {
        match self {
            GitignoreOpt::GiOff => false,
            _ => true,
        }
    }

    pub fn should_dim(&self) -> (r: bool)
        ensures
            r == self.spec_dims(),
    {
        match self {
            GitignoreOpt::GiDim | GitignoreOpt::GiDimAndStop => true,
            _ => false,
        }
    }

    pub fn should_ignore(&self) -> (r: bool)
        ensures
            r == self.spec_ignores(),
    {
        match self {
            GitignoreOpt::GiIgnore => true,
            _ => false,
        }
    }

    pub fn should_stop(&self) -> (r: bool)
        ensures
            r == self.spec_stops(),
    {
        match self {
            GitignoreOpt::GiStop | GitignoreOpt::GiDimAndStop => true,
            _ => false,
        }
    }
}

/// The scan's configuration, immutable for the scan's lifetime.
pub struct ProjectTree {
    /// Patterns whose matches vanish from the tree entirely.
    pub ignore_list: Vec<String>,
    /// Patterns whose matching directories are listed but not entered.
    pub stop_list: Vec<String>,
    /// Whether directories are listed before files within each directory.
    pub prioritize_dirs: bool,
    /// How gitignore-matched entries are treated.
    pub gitignore_option: GitignoreOpt,
}

impl ProjectTree {
    pub fn new(
        ignore_list: Vec<String>,
        stop_list: Vec<String>,
        prioritize_dirs: bool,
        gitignore_option: GitignoreOpt,
    ) -> (t: ProjectTree)
        ensures
            t == (ProjectTree { ignore_list, stop_list, prioritize_dirs, gitignore_option }),
    {
        ProjectTree { ignore_list, stop_list, prioritize_dirs, gitignore_option }
    }
}

} // verus!
