//! Sets of path glob patterns, matched with the `globset` crate.

use vstd::prelude::*;
use globset::{Glob, GlobSet, GlobSetBuilder};

verus! {

#[verifier::external_type_specification]
#[verifier::external_body]
pub struct ExGlob(Glob);

#[verifier::external_type_specification]
#[verifier::external_body]
pub struct ExGlobSetBuilder(GlobSetBuilder);

#[verifier::external_type_specification]
#[verifier::external_body]
pub struct ExGlobSet(GlobSet);

/// The pattern text a glob was made from.
pub uninterp spec fn glob_text(g: Glob) -> Seq<char>;

/// The patterns added to a builder, in order.
pub uninterp spec fn builder_globs(b: GlobSetBuilder) -> Seq<Seq<char>>;

/// The patterns a set was built from, in order.
pub uninterp spec fn set_globs(s: GlobSet) -> Seq<Seq<char>>;

/// Whether `Glob::new` accepts a pattern.
pub uninterp spec fn glob_parses(pattern: Seq<char>) -> bool;

/// Whether `GlobSetBuilder::build` succeeds on these patterns.
pub uninterp spec fn globset_builds(globs: Seq<Seq<char>>) -> bool;

/// Whether `GlobSet::is_match` holds for a set of these patterns and a path.
pub uninterp spec fn globset_matches(globs: Seq<Seq<char>>, path: Seq<char>) -> bool;

/// `Glob::new`: parses a glob pattern, keeping its text.
#[verifier::external_body]
fn glob_new(pattern: &str) -> (r: Option<Glob>)
    ensures
        r is Some <==> glob_parses(pattern@),
        r matches Some(g) ==> glob_text(g) == pattern@,
{
    Glob::new(pattern).ok()
}

/// `GlobSetBuilder::new`: a builder with no pattern.
#[verifier::external_body]
fn builder_new() -> (r: GlobSetBuilder)
    ensures
        builder_globs(r) == Seq::<Seq<char>>::empty(),
{
    GlobSetBuilder::new()
}

/// `GlobSetBuilder::add`: appends a pattern.
#[verifier::external_body]
fn builder_add(b: &mut GlobSetBuilder, g: Glob)
    ensures
        builder_globs(*final(b)) == builder_globs(*old(b)).push(glob_text(g)),
{
    b.add(g);
}

/// `GlobSetBuilder::build`: a set of the added patterns. Building a set of
/// no pattern always succeeds.
#[verifier::external_body]
fn builder_build(b: &GlobSetBuilder) -> (r: Option<GlobSet>)
    ensures
        r is Some <==> globset_builds(builder_globs(*b)),
        builder_globs(*b).len() == 0 ==> r is Some,
        r matches Some(s) ==> set_globs(s) == builder_globs(*b),
{
    b.build().ok()
}

/// `GlobSet::is_match`: whether any pattern of the set matches the path.
/// A set of no pattern matches nothing.
#[verifier::external_body]
fn set_is_match(s: &GlobSet, path: &str) -> (r: bool)
    ensures
        r == globset_matches(set_globs(*s), path@),
        set_globs(*s).len() == 0 ==> !r,
{
    s.is_match(path)
}

/// The patterns of a list that `Glob::new` accepts, in order.
pub open spec fn parsed_globs(patterns: Seq<Seq<char>>) -> Seq<Seq<char>>
    decreases patterns.len(),
{
    if patterns.len() == 0 {
        Seq::empty()
    } else {
        let rest = parsed_globs(patterns.drop_last());
        if glob_parses(patterns.last()) {
            rest.push(patterns.last())
        } else {
            rest
        }
    }
}

/// A set of glob patterns; patterns that do not parse are left out.
pub struct GlobMatcher {
    set: Option<GlobSet>,
}

impl GlobMatcher {
    /// The patterns the matcher holds, when it could be built.
    pub closed spec fn globs(&self) -> Option<Seq<Seq<char>>> {
        match self.set {
            Some(s) => Some(set_globs(s)),
            None => None,
        }
    }

    /// A matcher of the patterns that parse; `None` inside when the set
    /// could not be built.
    pub fn new(patterns: &Vec<String>) -> (r: Self)
        ensures
            globset_builds(parsed_globs(patterns@.map_values(|p: String| p@))) ==> r.globs()
                == Some(parsed_globs(patterns@.map_values(|p: String| p@))),
            !globset_builds(parsed_globs(patterns@.map_values(|p: String| p@))) ==> r.globs()
                is None,
    {
        let ghost texts = patterns@.map_values(|p: String| p@);
        let mut builder = builder_new();
        let mut i: usize = 0;
        while i < patterns.len()
            invariant
                i <= patterns@.len(),
                texts == patterns@.map_values(|p: String| p@),
                builder_globs(builder) == parsed_globs(texts.take(i as int)),
            decreases patterns@.len() - i,
        {
            proof {
                assert(texts.take(i + 1).drop_last() =~= texts.take(i as int));
            }
            match glob_new(patterns[i].as_str()) {
                Some(g) => builder_add(&mut builder, g),
                None => {},
            }
            i = i + 1;
        }
        proof {
            assert(texts.take(patterns@.len() as int) =~= texts);
        }
        Self { set: builder_build(&builder) }
    }

    /// A matcher that matches nothing.
    pub fn empty() -> (r: Self)
        ensures
            r.globs() is None,
    {
        Self { set: None }
    }

    /// Whether some pattern matches the path.
    pub fn is_match(&self, path: &str) -> (r: bool)
        ensures
            r == (self.globs() matches Some(g) && globset_matches(g, path@)),
            self.globs() matches Some(g) && g.len() == 0 ==> !r,
    {
        match &self.set {
            Some(s) => set_is_match(s, path),
            None => false,
        }
    }
}

} // verus!
