//! Blocking of sensitive paths (`.env`, `.git`, dumps, ...).

use vstd::prelude::*;

use crate::config::FilterConfig;
use crate::globs::{globset_builds, globset_matches, parsed_globs, GlobMatcher};
use crate::text::{concat_str, starts_with_char};

verus! {

/// The glob a configured pattern stands for: it matches at any depth.
pub open spec fn blocked_glob(p: Seq<char>) -> Seq<char> {
    if p.len() > 0 && p[0] == '/' {
        "**"@ + p
    } else {
        "**/"@ + p
    }
}

/// The globs of a list of configured patterns.
pub open spec fn blocked_globs(patterns: Seq<String>) -> Seq<Seq<char>> {
    patterns.map_values(|p: String| blocked_glob(p@))
}

/// The globs a filter for this configuration holds: none when it is
/// disabled, has no pattern, or its glob set cannot be built.
pub open spec fn filter_globs_for(config: FilterConfig) -> Option<Seq<Seq<char>>> {
    let globs = parsed_globs(blocked_globs(config.blocked_paths@));
    if !config.enabled || config.blocked_paths@.len() == 0 || !globset_builds(globs) {
        None
    } else {
        Some(globs)
    }
}

/// A blocked-path pattern matches at any depth: one starting with `/` is
/// prefixed with `**`, any other with `**/`; the pattern itself is kept
/// whole at the end.
pub proof fn law_blocked_glob(p: Seq<char>)
    ensures
        p.len() > 0 && p[0] == '/' ==> blocked_glob(p) == "**"@ + p,
        !(p.len() > 0 && p[0] == '/') ==> blocked_glob(p) == "**/"@ + p,
{
}

/// A disabled filter, or one without patterns, blocks nothing.
pub proof fn law_disabled_filter_blocks_nothing(config: FilterConfig)
    requires
        !config.enabled || config.blocked_paths@.len() == 0,
    ensures
        filter_globs_for(config) is None,
{
}

/// Refuses requests whose path matches one of the configured patterns.
pub struct FilterMiddleware {
    blocked: GlobMatcher,
}

impl FilterMiddleware {
    /// The globs in force, if the filter is active.
    pub closed spec fn globs(&self) -> Option<Seq<Seq<char>>> {
        self.blocked.globs()
    }

    /// A filter for the configured patterns. A disabled filter, or one with
    /// no pattern, blocks nothing; so does one whose glob set cannot be built.
    pub fn new(config: &FilterConfig) -> (r: Self)
        ensures
            r.globs() == filter_globs_for(*config),
    {
        if !config.enabled || config.blocked_paths.len() == 0 {
            return Self { blocked: GlobMatcher::empty() };
        }
        proof {
            reveal_strlit("**");
            reveal_strlit("**/");
        }
        let mut globs: Vec<String> = Vec::new();
        let mut i: usize = 0;
        while i < config.blocked_paths.len()
            invariant
                i <= config.blocked_paths@.len(),
                globs@.len() == i,
                forall|j: int|
                    0 <= j < i ==> #[trigger] globs@[j]@ == blocked_glob(config.blocked_paths@[j]@),
            decreases config.blocked_paths@.len() - i,
        {
            let pattern = config.blocked_paths[i].as_str();
            let g = if starts_with_char(pattern, '/') {
                concat_str("**", pattern)
            } else {
                concat_str("**/", pattern)
            };
            globs.push(g);
            i = i + 1;
        }
        proof {
            assert(globs@.map_values(|p: String| p@) =~= blocked_globs(config.blocked_paths@));
        }
        Self { blocked: GlobMatcher::new(&globs) }
    }

    /// Whether the path is blocked.
    pub fn is_blocked(&self, path: &str) -> (r: bool)
        ensures
            r == (self.globs() matches Some(g) && globset_matches(g, path@)),
            self.globs() is None ==> !r,
    {
        self.blocked.is_match(path)
    }
}

} // verus!
