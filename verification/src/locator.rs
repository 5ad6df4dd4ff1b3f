//! Resolution of the runtime binary's location.
//!
//! The caller gathers the raw facts — the environment override, the
//! result of a PATH lookup, and which well-known install locations exist
//! on the filesystem — and this module applies the precedence rule:
//! a non-empty override wins, then a non-empty PATH hit, then the first
//! existing well-known location.  Nothing is cached: every resolution
//! starts from the probes it is given.

use vstd::prelude::*;
use vstd::string::*;

verus! {

/// A well-known install location, together with whether the filesystem
/// reports a file there.
pub struct PathProbe {
    pub path: String,
    pub exists: bool,
}

/// The path of the first probe at or after `i` that exists, if any.
pub open spec fn first_existing_from(probes: Seq<PathProbe>, i: int) -> Option<Seq<char>>
    decreases probes.len() - i,
{
    if i < 0 || i >= probes.len() {
        None
    } else if probes[i].exists {
        Some(probes[i].path@)
    } else {
        first_existing_from(probes, i + 1)
    }
}

/// The resolution rule: a non-empty environment override is returned
/// verbatim; otherwise a non-empty PATH lookup result; otherwise the
/// first existing well-known location; otherwise nothing.
pub open spec fn resolve_spec(
    env_override: Option<Seq<char>>,
    path_lookup: Option<Seq<char>>,
    probes: Seq<PathProbe>,
) -> Option<Seq<char>> {
    if env_override matches Some(s) && s.len() > 0 {
        env_override
    } else if path_lookup matches Some(s) && s.len() > 0 {
        path_lookup
    } else {
        first_existing_from(probes, 0)
    }
}

/// Resolve the runtime binary from the probe results.
///
/// `env_override` is the value of the override variable if it was set,
/// `path_lookup` the trimmed output of a successful PATH search, and
/// `probes` the well-known locations with their existence checks.
pub fn resolve_binary(
    env_override: Option<String>,
    path_lookup: Option<String>,
    probes: Vec<PathProbe>,
) -> (r: Option<String>)
    ensures
        r.deep_view() =~= resolve_spec(env_override.deep_view(), path_lookup.deep_view(), probes@),
{
    if let Some(s) = &env_override {
        if !s.as_str().is_empty() {
            return env_override;
        }
    }
    if let Some(s) = &path_lookup {
        if !s.as_str().is_empty() {
            return path_lookup;
        }
    }
    let mut i: usize = 0;
    while i < probes.len()
        invariant
            i <= probes@.len(),
            !(env_override.deep_view() matches Some(s) && s.len() > 0),
            !(path_lookup.deep_view() matches Some(s) && s.len() > 0),
            first_existing_from(probes@, 0) == first_existing_from(probes@, i as int),
        decreases probes@.len() - i,
    {
        if probes[i].exists {
            assert(first_existing_from(probes@, i as int) == Some(probes@[i as int].path@));
            return Some(probes[i].path.clone());
        }
        assert(first_existing_from(probes@, i as int) == first_existing_from(probes@, i + 1));
        i += 1;
    }
    None
}

/// The fixed list of well-known install locations, in the order they
/// are checked.
pub fn default_candidates() -> (r: Vec<String>)
    ensures
        r@.len() == 4,
        r@[0]@ == "/usr/local/bin/ollama"@,
        r@[1]@ == "/opt/homebrew/bin/ollama"@,
        r@[2]@ == "/usr/bin/ollama"@,
        r@[3]@ == "/bin/ollama"@,
{
    let mut v: Vec<String> = Vec::new();
    v.push(String::from_str("/usr/local/bin/ollama"));
    v.push(String::from_str("/opt/homebrew/bin/ollama"));
    v.push(String::from_str("/usr/bin/ollama"));
    v.push(String::from_str("/bin/ollama"));
    v
}

/// A set, non-empty environment override is returned verbatim, whatever
/// the PATH lookup found and whatever well-known locations exist.
pub proof fn lemma_override_precedence(
    ov: Seq<char>,
    path_lookup: Option<Seq<char>>,
    probes: Seq<PathProbe>,
)
    requires
        ov.len() > 0,
    ensures
        resolve_spec(Some(ov), path_lookup, probes) == Some(ov),
{
}

} // verus!
