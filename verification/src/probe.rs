//! Where the GitHub OAuth token is found: a setting, or the first of a fixed
//! list of files that exists.

use vstd::prelude::*;

verus! {

/// What a probe for the existence of a file found.
#[derive(Debug, Clone, Copy, PartialEq, Eq, Structural)]
pub enum Probe {
    /// The file exists.
    Found,
    /// The file does not exist.
    Missing,
    /// The probe failed for another reason.
    Failed,
}

/// Where the search for the token stands.
#[derive(Debug, PartialEq, Eq)]
pub enum OauthStep {
    /// The token path is known; `-` stands for access without a token.
    Resolved(String),
    /// This file is to be probed next.
    Probe(String),
    /// The probe of this file failed.
    Failed(String),
}

/// An `OauthStep` over plain sequences of characters.
pub enum OauthState {
    Resolved(Seq<char>),
    Probe(Seq<char>),
    Failed(Seq<char>),
}

impl View for OauthStep {
    type V = OauthState;

    open spec fn view(&self) -> OauthState {
        match self {
            OauthStep::Resolved(s) => OauthState::Resolved(s@),
            OauthStep::Probe(s) => OauthState::Probe(s@),
            OauthStep::Failed(s) => OauthState::Failed(s@),
        }
    }
}

/// The files that may hold the token, in the order in which they are tried.
pub open spec fn oauth_candidates() -> Seq<Seq<char>> {
    seq!["/etc/github/oauths"@, "/etc/github/oauth"@]
}

/// The walk over the candidates, given the outcomes of the probes made so far,
/// one for each candidate from the first on: the first file found wins, a
/// missing file passes on to the next, a failed probe ends the walk, and with
/// every candidate missing there is no token.
pub open spec fn oauth_walk(candidates: Seq<Seq<char>>, probes: Seq<Probe>) -> OauthState
    decreases candidates.len(),
{
    if candidates.len() == 0 {
        OauthState::Resolved("-"@)
    } else if probes.len() == 0 {
        OauthState::Probe(candidates[0])
    } else {
        match probes[0] {
            Probe::Found => OauthState::Resolved(candidates[0]),
            Probe::Failed => OauthState::Failed(candidates[0]),
            Probe::Missing => oauth_walk(candidates.drop_first(), probes.drop_first()),
        }
    }
}

/// Where the search stands for a token path configured as `configured` (empty
/// where none is).
pub open spec fn oauth_state(configured: Seq<char>, probes: Seq<Probe>) -> OauthState {
    if configured.len() > 0 {
        OauthState::Resolved(configured)
    } else {
        oauth_walk(oauth_candidates(), probes)
    }
}

/// The files that may hold the token, in the order in which they are tried.
pub fn candidates() -> (r: Vec<&'static str>)
    ensures
        r.deep_view() == oauth_candidates(),
{
    let mut r: Vec<&'static str> = Vec::new();
    r.push("/etc/github/oauths");
    r.push("/etc/github/oauth");
    assert(r.deep_view() =~= oauth_candidates());
    r
}

/// Decides the next step of the search: from the configured path and the
/// outcomes of the probes made so far to the path, the next probe or the
/// failure.
pub fn oauth_step(configured: &str, probes: &Vec<Probe>) -> (r: OauthStep)
    ensures
        r@ == oauth_state(configured@, probes@),
{
    if !configured.is_empty() {
        return OauthStep::Resolved(configured.to_owned());
    }
    let files = candidates();
    let n: usize = files.len();
    let mut i: usize = 0;
    assert(files.deep_view().skip(0) =~= files.deep_view());
    assert(probes@.skip(0) =~= probes@);
    while i < n
        invariant
            i <= n,
            i <= probes.len(),
            n == files.len(),
            configured@.len() == 0,
            files.deep_view() == oauth_candidates(),
            oauth_walk(oauth_candidates(), probes@) == oauth_walk(
                files.deep_view().skip(i as int),
                probes@.skip(i as int),
            ),
        decreases n - i,
    {
        let ghost rest = files.deep_view().skip(i as int);
        assert(rest[0] == files@[i as int]@);
        assert(rest.drop_first() =~= files.deep_view().skip(i + 1));
        if i >= probes.len() {
            return OauthStep::Probe(files[i].to_owned());
        }
        assert(probes@.skip(i as int)[0] == probes@[i as int]);
        assert(probes@.skip(i as int).drop_first() =~= probes@.skip(i + 1));
        match probes[i] {
            Probe::Found => {
                return OauthStep::Resolved(files[i].to_owned());
            },
            Probe::Failed => {
                return OauthStep::Failed(files[i].to_owned());
            },
            Probe::Missing => {},
        }
        i += 1;
    }
    OauthStep::Resolved("-".to_owned())
}

} // verus!
