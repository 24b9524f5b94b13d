//! The repository that is watched, and the addresses of its two endpoints.

use vstd::prelude::*;
use vstd::string::StringExecFns;

verus! {

/// Where every repository endpoint begins.
pub const API_ROOT: &'static str = "https://api.github.com/repos/";

/// What follows the repository in the address of its reference listing.
pub const REFS_SUFFIX: &'static str = "/git/refs";

/// What follows the repository in the address of its archive.
pub const TARBALL_SUFFIX: &'static str = "/tarball";

/// The owner and name of the watched repository. Neither is empty.
#[derive(Debug, PartialEq, Eq)]
pub struct Target {
    owner: String,
    repo: String,
}

/// The mathematical content of a [`Target`].
pub struct TargetView {
    pub owner: Seq<char>,
    pub repo: Seq<char>,
}

impl View for Target {
    type V = TargetView;

    closed spec fn view(&self) -> TargetView {
        TargetView { owner: self.owner@, repo: self.repo@ }
    }
}

/// Whether an owner and a repository name identify a target: both non-empty.
pub open spec fn identifies(owner: Seq<char>, repo: Seq<char>) -> bool {
    owner.len() > 0 && repo.len() > 0
}

/// The address of a repository endpoint: root, owner, a slash, the
/// repository name and the endpoint's suffix.
pub open spec fn endpoint(t: TargetView, suffix: Seq<char>) -> Seq<char> {
    API_ROOT@ + t.owner + "/"@ + t.repo + suffix
}

impl Target {
    #[verifier::type_invariant]
    spec fn named(self) -> bool {
        identifies(self.owner@, self.repo@)
    }

    /// Makes a target of an owner and a repository name; none where either
    /// is empty.
    pub fn new(owner: String, repo: String) -> (r: Option<Target>)
        ensures
            r is Some <==> identifies(owner@, repo@),
            r matches Some(t) ==> t@ == (TargetView { owner: owner@, repo: repo@ }),
    {
        if owner.as_str().is_empty() || repo.as_str().is_empty() {
            None
        } else {
            Some(Target { owner, repo })
        }
    }

    /// The owner; never empty.
    pub fn owner(&self) -> (s: &str)
        ensures
            s@ == self@.owner,
            s@.len() > 0,
    {
        proof {
            use_type_invariant(self);
        }
        self.owner.as_str()
    }

    /// The repository name; never empty.
    pub fn repo(&self) -> (s: &str)
        ensures
            s@ == self@.repo,
            s@.len() > 0,
    {
        proof {
            use_type_invariant(self);
        }
        self.repo.as_str()
    }

    fn address(&self, suffix: &str) -> (url: String)
        ensures
            url@ == endpoint(self@, suffix@),
    {
        let mut url = String::from_str(API_ROOT);
        url.append(self.owner.as_str());
        url.append("/");
        url.append(self.repo.as_str());
        url.append(suffix);
        url
    }

    /// The address of the reference listing.
    pub fn refs_url(&self) -> (url: String)
        ensures
            url@ == endpoint(self@, REFS_SUFFIX@),
    {
        self.address(REFS_SUFFIX)
    }

    /// The address of the archive of the default branch.
    pub fn tarball_url(&self) -> (url: String)
        ensures
            url@ == endpoint(self@, TARBALL_SUFFIX@),
    {
        self.address(TARBALL_SUFFIX)
    }
}

} // verus!
