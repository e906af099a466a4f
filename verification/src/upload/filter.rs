//! Which files of the upload directory become modules.
//!
//! The include and exclude patterns of a build step are globs in the manner
//! of a `gitignore` file. They are compiled and matched by the `ignore`
//! crate; this module decides which patterns are in force, and applies the
//! matcher to a listing of the upload directory the way a filtered walk
//! would: an entry that the matcher ignores is left out, and with it all
//! that lies below it.

use vstd::prelude::*;
use vstd::string::*;
use crate::error::ConfigurationError;
use crate::error::ConfigurationErrorView;
use crate::settings::Builder;
use crate::text::first_true;
use crate::text::lemma_first_true_none;
use crate::text::lemma_first_true_some;
use crate::text::texts;

verus! {

#[verifier::external_type_specification]
#[verifier::external_body]
pub struct ExOverride(ignore::overrides::Override);

#[verifier::external_type_specification]
#[verifier::external_body]
pub struct ExOverrideBuilder(ignore::overrides::OverrideBuilder);

#[verifier::external_type_specification]
#[verifier::external_body]
pub struct ExIgnoreError(ignore::Error);

/// What a matcher says of one path.
#[derive(Clone, Copy, Debug, PartialEq, Eq, Structural)]
pub enum Verdict {
    /// No pattern speaks of the path.
    Unmatched,
    /// The path is to be left out.
    Ignored,
    /// The path is asked for.
    Whitelisted,
}

/// The directory that a builder matches relative to, as it keeps it.
pub uninterp spec fn builder_root(builder: ignore::overrides::OverrideBuilder) -> Seq<char>;

/// The globs that a builder holds, each as the text it was added with, in
/// the order in which they were added.
pub uninterp spec fn builder_globs(builder: ignore::overrides::OverrideBuilder) -> Seq<
    Seq<char>,
>;

/// The directory that a matcher matches relative to, as it keeps it.
pub uninterp spec fn override_root(matcher: ignore::overrides::Override) -> Seq<char>;

/// The globs that a matcher holds, each as the text it was added with, in
/// the order in which they were added.
pub uninterp spec fn override_globs(matcher: ignore::overrides::Override) -> Seq<Seq<char>>;

/// The form in which a new builder keeps the directory it is given.
pub uninterp spec fn kept_root(directory: Seq<char>) -> Seq<char>;

/// What adding a line to a builder with default settings does: `None` where
/// the line is refused as no valid glob, else the globs that the builder
/// gains, which are none for a comment or a blank line and one otherwise.
pub uninterp spec fn glob_line(line: Seq<char>) -> Option<Seq<Seq<char>>>;

/// Whether a matcher can be built of these globs. One can always be built
/// of none.
pub uninterp spec fn matcher_builds(globs: Seq<Seq<char>>) -> bool;

/// What a matcher with default settings, with this root and these globs,
/// says of a path.
pub uninterp spec fn override_verdict(
    root: Seq<char>,
    globs: Seq<Seq<char>>,
    path: Seq<char>,
    is_dir: bool,
) -> Verdict;

/// `OverrideBuilder::new` of the `ignore` crate: a builder without globs
/// that matches relative to `directory`.
#[verifier::external_body]
fn new_builder(directory: &str) -> (builder: ignore::overrides::OverrideBuilder)
    ensures
        builder_root(builder) == kept_root(directory@),
        builder_globs(builder) == Seq::<Seq<char>>::empty(),
{
    ignore::overrides::OverrideBuilder::new(directory)
}

/// `OverrideBuilder::add` of the `ignore` crate. Whether a line is taken
/// depends on the line alone. A line that is taken adds its globs behind
/// those that the builder holds; one that is refused changes nothing. The
/// directory stays.
#[verifier::external_body]
fn add_glob(builder: &mut ignore::overrides::OverrideBuilder, line: &str) -> (res: Result<
    (),
    ignore::Error,
>)
    ensures
        builder_root(*final(builder)) == builder_root(*old(builder)),
        match glob_line(line@) {
            Some(globs) => res is Ok && builder_globs(*final(builder)) == builder_globs(
                *old(builder),
            ) + globs,
            None => res is Err && builder_globs(*final(builder)) == builder_globs(*old(builder)),
        },
{
    builder.add(line).map(|_| ())
}

/// `OverrideBuilder::build` of the `ignore` crate. Whether a matcher
/// comes back depends on the globs alone, and one always comes back where
/// there are none. A matcher that comes back has the builder's directory
/// and globs.
#[verifier::external_body]
fn build_matcher(builder: &ignore::overrides::OverrideBuilder) -> (res: Result<
    ignore::overrides::Override,
    ignore::Error,
>)
    ensures
        res is Ok <==> matcher_builds(builder_globs(*builder)),
        builder_globs(*builder).len() == 0 ==> res is Ok,
        res matches Ok(matcher) ==> override_root(matcher) == builder_root(*builder)
            && override_globs(matcher) == builder_globs(*builder),
{
    builder.build()
}

/// `Override::is_empty` of the `ignore` crate: whether the matcher holds
/// no glob.
#[verifier::external_body]
fn matcher_is_empty(matcher: &ignore::overrides::Override) -> (empty: bool)
    ensures
        empty == (override_globs(*matcher).len() == 0),
{
    matcher.is_empty()
}

/// `Override::matched` of the `ignore` crate, on a matcher that a builder
/// with default settings made; this module makes no other. The verdict
/// depends on the matcher's directory and globs, the path, and whether the
/// path is a directory. A matcher without globs matches nothing.
#[verifier::external_body]
fn matched(matcher: &ignore::overrides::Override, path: &str, is_dir: bool) -> (verdict: Verdict)
    ensures
        verdict == override_verdict(
            override_root(*matcher),
            override_globs(*matcher),
            path@,
            is_dir,
        ),
        override_globs(*matcher).len() == 0 ==> verdict == Verdict::Unmatched,
{
    match matcher.matched(path, is_dir) {
        ignore::Match::None => Verdict::Unmatched,
        ignore::Match::Ignore(_) => Verdict::Ignored,
        ignore::Match::Whitelist(_) => Verdict::Whitelisted,
    }
}

/// An exclude pattern as a line for the matcher: the pattern after `!`.
pub open spec fn exclusion(pattern: Seq<char>) -> Seq<char> {
    seq!['!'] + pattern
}

/// The lines that go to the matcher, in order. Where include patterns are
/// configured they are the lines, and the exclude patterns are not looked
/// at. Else each exclude pattern is a line, as an exclusion. Else there are
/// none.
pub open spec fn effective_patterns(config: Builder) -> Seq<Seq<char>> {
    match config.upload_include {
        Some(included) => texts(included@),
        None => match config.upload_exclude {
            Some(excluded) => texts(excluded@).map_values(|e: Seq<char>| exclusion(e)),
            None => Seq::empty(),
        },
    }
}

/// The patterns that are in force, as they are configured.
pub open spec fn configured_patterns(config: Builder) -> Seq<Seq<char>> {
    match config.upload_include {
        Some(included) => texts(included@),
        None => match config.upload_exclude {
            Some(excluded) => texts(excluded@),
            None => Seq::empty(),
        },
    }
}

/// For each line, whether the matcher refuses it.
pub open spec fn refused_lines(lines: Seq<Seq<char>>) -> Seq<bool> {
    Seq::new(lines.len(), |i: int| glob_line(lines[i]) is None)
}

/// The globs that a builder holds after it took each of `lines` in turn.
pub open spec fn stored_globs(lines: Seq<Seq<char>>) -> Seq<Seq<char>>
    decreases lines.len(),
{
    if lines.len() == 0 {
        Seq::empty()
    } else {
        stored_globs(lines.drop_last()) + glob_line(lines.last()).unwrap()
    }
}

/// The filter of one project's upload: a matcher made of the patterns in
/// force, and whether those are include patterns. The only way to one is
/// [`build_ignore`].
#[derive(Debug)]
pub struct UploadFilter {
    matcher: ignore::overrides::Override,
    include_only: bool,
}

impl UploadFilter {
    /// The directory that paths are matched relative to.
    pub closed spec fn root(&self) -> Seq<char> {
        override_root(self.matcher)
    }

    /// The globs of the filter.
    pub closed spec fn globs(&self) -> Seq<Seq<char>> {
        override_globs(self.matcher)
    }

    /// Whether the filter was made of include patterns, so that a file is
    /// only admitted where a pattern asks for it.
    pub closed spec fn include_only(&self) -> bool {
        self.include_only
    }

    /// What the filter says of a path. With globs it is what the matcher
    /// says. Without globs no pattern speaks of any path; where the filter
    /// was made of include patterns, none of them asks for the path, and a
    /// path that is no directory is left out.
    pub open spec fn verdict(&self, path: Seq<char>, is_dir: bool) -> Verdict {
        if self.globs().len() == 0 {
            if self.include_only() && !is_dir {
                Verdict::Ignored
            } else {
                Verdict::Unmatched
            }
        } else {
            override_verdict(self.root(), self.globs(), path, is_dir)
        }
    }

    /// Matches one path against the filter.
    pub fn matched(&self, path: &str, is_dir: bool) -> (verdict: Verdict)
        ensures
            verdict == self.verdict(path@, is_dir),
    {
        if matcher_is_empty(&self.matcher) {
            if self.include_only && !is_dir {
                Verdict::Ignored
            } else {
                Verdict::Unmatched
            }
        } else {
            matched(&self.matcher, path, is_dir)
        }
    }

    /// Whether a walk goes on with this path: it does unless the filter
    /// ignores it.
    pub fn admits(&self, path: &str, is_dir: bool) -> (yes: bool)
        ensures
            yes == (self.verdict(path@, is_dir) != Verdict::Ignored),
    {
        match self.matched(path, is_dir) {
            Verdict::Ignored => false,
            _ => true,
        }
    }
}

/// What [`build_ignore`] returns once every line was taken: the filter
/// where the matcher was built, and a failure to build it otherwise.
fn finish_filter(
    built: Result<ignore::overrides::Override, ignore::Error>,
    include_only: bool,
) -> (res: Result<UploadFilter, ConfigurationError>)
    ensures
        match built {
            Ok(matcher) => res matches Ok(filter) && filter.root() == override_root(matcher)
                && filter.globs() == override_globs(matcher) && filter.include_only()
                == include_only,
            Err(_) => res matches Err(e) && e@ == ConfigurationErrorView::MatcherFailed,
        },
{
    match built {
        Ok(matcher) => Ok(UploadFilter { matcher, include_only }),
        Err(_) => Err(ConfigurationError::MatcherFailed),
    }
}

/// Adds each of `patterns` to `builder`, as an exclusion where `exclude` is
/// set. Stops at the first line that is refused, and hands back its place.
fn add_patterns(
    builder: &mut ignore::overrides::OverrideBuilder,
    patterns: &Vec<String>,
    exclude: bool,
) -> (refused: Option<usize>)
    ensures
        builder_root(*final(builder)) == builder_root(*old(builder)),
        ({
            let lines = if exclude {
                texts(patterns@).map_values(|e: Seq<char>| exclusion(e))
            } else {
                texts(patterns@)
            };
            match refused {
                Some(i) => i < patterns.len() && first_true(refused_lines(lines)) == Some(
                    i as int,
                ),
                None => first_true(refused_lines(lines)) is None && builder_globs(
                    *final(builder),
                ) == builder_globs(*old(builder)) + stored_globs(lines),
            }
        }),
{
    let ghost lines = if exclude {
        texts(patterns@).map_values(|e: Seq<char>| exclusion(e))
    } else {
        texts(patterns@)
    };
    let ghost before = builder_globs(*builder);
    let mut i: usize = 0;
    while i < patterns.len()
        invariant
            i <= patterns.len(),
            lines.len() == patterns.len(),
            lines == if exclude {
                texts(patterns@).map_values(|e: Seq<char>| exclusion(e))
            } else {
                texts(patterns@)
            },
            builder_root(*builder) == builder_root(*old(builder)),
            builder_globs(*builder) == before + stored_globs(lines.take(i as int)),
            forall|k: int| 0 <= k < i ==> !refused_lines(lines)[k],
        decreases patterns.len() - i,
    {
        let res = if exclude {
            let mut line = String::from_str("!");
            line.append(patterns[i].as_str());
            proof {
                reveal_strlit("!");
                assert(line@ =~= exclusion(patterns[i as int]@));
            }
            add_glob(builder, line.as_str())
        } else {
            add_glob(builder, patterns[i].as_str())
        };
        match res {
            Err(_) => {
                proof {
                    lemma_first_true_some(refused_lines(lines), i as int);
                }
                return Some(i);
            },
            Ok(()) => {
                proof {
                    assert(lines.take(i + 1).drop_last() =~= lines.take(i as int));
                }
            },
        }
        i += 1;
    }
    proof {
        assert(lines.take(patterns.len() as int) =~= lines);
        lemma_first_true_none(refused_lines(lines));
    }
    None
}

/// Whether [`build_ignore`] owes a filter: no line is refused, and a
/// matcher can be built of the globs of the lines.
pub open spec fn filter_builds(config: Builder) -> bool {
    &&& first_true(refused_lines(effective_patterns(config))) is None
    &&& matcher_builds(stored_globs(effective_patterns(config)))
}

/// Builds the filter of a build step, for paths relative to `directory`.
///
/// The lines that go to the matcher are the include patterns where there
/// are any, and else the exclude patterns, each as an exclusion; the two are
/// never mixed. The first line that the matcher refuses fails the call with
/// the pattern as it is configured. Where every line is taken, the call
/// succeeds exactly where a matcher can be built of their globs, which is
/// always so where there are none; the filter then has the directory and
/// those globs, and knows whether it was made of include patterns.
pub fn build_ignore(config: &Builder, directory: &str) -> (res: Result<
    UploadFilter,
    ConfigurationError,
>)
    ensures
        res is Ok <==> filter_builds(*config),
        first_true(refused_lines(effective_patterns(*config))) is None && stored_globs(
            effective_patterns(*config),
        ).len() == 0 ==> res is Ok,
        match first_true(refused_lines(effective_patterns(*config))) {
            Some(i) => res matches Err(e) && e@ == (ConfigurationErrorView::InvalidPattern {
                pattern: configured_patterns(*config)[i],
            }),
            None => match res {
                Ok(filter) => filter.root() == kept_root(directory@) && filter.globs()
                    == stored_globs(effective_patterns(*config)) && filter.include_only()
                    == config.upload_include is Some,
                Err(e) => e@ == ConfigurationErrorView::MatcherFailed,
            },
        },
{
    let mut builder = new_builder(directory);
    if let Some(included) = &config.upload_include {
        if let Some(i) = add_patterns(&mut builder, included, false) {
            return Err(ConfigurationError::InvalidPattern { pattern: included[i].clone() });
        }
    } else if let Some(excluded) = &config.upload_exclude {
        if let Some(i) = add_patterns(&mut builder, excluded, true) {
            return Err(ConfigurationError::InvalidPattern { pattern: excluded[i].clone() });
        }
    } else {
        proof {
            lemma_first_true_none(refused_lines(effective_patterns(*config)));
        }
    }
    finish_filter(build_matcher(&builder), config.upload_include.is_some())
}

/// Include patterns override exclude patterns: two build steps with the
/// same include patterns send the same lines to the matcher, whatever
/// their exclude patterns are. So both get a filter or neither does, and
/// two filters that they get say the same of every path.
pub proof fn lemma_include_overrides_exclude(a: Builder, b: Builder)
    requires
        a.upload_include matches Some(x) && b.upload_include matches Some(y) && texts(x@) == texts(
            y@,
        ),
    ensures
        effective_patterns(a) == effective_patterns(b),
        effective_patterns(a) == texts(a.upload_include.unwrap()@),
        filter_builds(a) == filter_builds(b),
        forall|f: UploadFilter, g: UploadFilter, path: Seq<char>, is_dir: bool|
            f.root() == g.root() && f.globs() == stored_globs(effective_patterns(a)) && g.globs()
                == stored_globs(effective_patterns(b)) && f.include_only() && g.include_only()
                ==> #[trigger] f.verdict(path, is_dir) == #[trigger] g.verdict(path, is_dir),
{
}

/// Without patterns there is always a filter, and it has no globs.
pub proof fn lemma_no_patterns_build(config: Builder)
    requires
        config.upload_include is None,
        config.upload_exclude is None,
    ensures
        first_true(refused_lines(effective_patterns(config))) is None,
        stored_globs(effective_patterns(config)).len() == 0,
{
    lemma_first_true_none(refused_lines(effective_patterns(config)));
}

/// One entry of a listing of the upload directory.
#[derive(Clone, Debug)]
pub struct WalkEntry {
    pub path: String,
    /// How far below the upload directory the entry lies: 0 for the
    /// directory itself, 1 for what is in it.
    pub depth: usize,
    pub is_dir: bool,
    /// Whether the entry is a regular file.
    pub is_file: bool,
}

impl UploadFilter {
    /// Whether a walk passes over this entry: the filter ignores it. The
    /// directory that the walk starts from is never passed over.
    pub open spec fn skips(&self, entry: WalkEntry) -> bool {
        entry.depth > 0 && self.verdict(entry.path@, entry.is_dir) == Verdict::Ignored
    }
}

/// The entry that encloses an entry of depth `depth` at place `end` of a
/// listing: the nearest one before `end` that is less deep.
pub open spec fn enclosing(walk: Seq<WalkEntry>, end: int, depth: int) -> Option<int>
    decreases end,
{
    if end <= 0 {
        None
    } else if walk[end - 1].depth < depth {
        Some(end - 1)
    } else {
        enclosing(walk, end - 1, depth)
    }
}

/// Whether a filtered walk comes to the entry at `i`: the filter does not
/// pass over it, and the walk comes to the entry that encloses it.
pub open spec fn reached(filter: UploadFilter, walk: Seq<WalkEntry>, i: int) -> bool
    decreases i,
{
    &&& 0 <= i < walk.len()
    &&& !filter.skips(walk[i])
    &&& match enclosing(walk, i, walk[i].depth as int) {
        Some(p) => 0 <= p < i && reached(filter, walk, p),
        None => true,
    }
}

/// Whether an entry of depth `depth` at place `end` lies below an entry
/// that the walk does not come to.
pub open spec fn cut_off(filter: UploadFilter, walk: Seq<WalkEntry>, end: int, depth: int) -> bool {
    enclosing(walk, end, depth) matches Some(p) && !reached(filter, walk, p)
}

/// The places of the regular files among the first `n` entries that a
/// filtered walk comes to, in order.
pub open spec fn admitted(filter: UploadFilter, walk: Seq<WalkEntry>, n: int) -> Seq<int>
    decreases n,
{
    if n <= 0 {
        Seq::empty()
    } else if walk[n - 1].is_file && reached(filter, walk, n - 1) {
        admitted(filter, walk, n - 1).push(n - 1)
    } else {
        admitted(filter, walk, n - 1)
    }
}

proof fn lemma_enclosing_is_before(walk: Seq<WalkEntry>, end: int, depth: int)
    requires
        end <= walk.len(),
    ensures
        enclosing(walk, end, depth) matches Some(p) ==> 0 <= p < end && walk[p].depth < depth,
    decreases end,
{
    if end > 0 && walk[end - 1].depth >= depth {
        lemma_enclosing_is_before(walk, end - 1, depth);
    }
}

/// Picks the regular files of a listing that become modules: those that a
/// walk with this filter comes to. The listing is that of a walk, each
/// directory before what is in it; whether it holds what lies below an
/// entry that the filter leaves out makes no difference. The places of the
/// files come back, in the order of the listing.
pub fn select_modules(filter: &UploadFilter, walk: &Vec<WalkEntry>) -> (places: Vec<usize>)
    ensures
        places@.map_values(|p: usize| p as int) == admitted(*filter, walk@, walk.len() as int),
        forall|k: int| 0 <= k < places.len() ==> (#[trigger] places[k]) < walk.len(),
{
    let mut places: Vec<usize> = Vec::new();
    // The depth of the entry that closed off what lies below it, if the
    // walk is below such an entry.
    let mut cut: Option<usize> = None;
    let mut i: usize = 0;
    while i < walk.len()
        invariant
            i <= walk.len(),
            places@.map_values(|p: usize| p as int) == admitted(*filter, walk@, i as int),
            forall|k: int| 0 <= k < places.len() ==> (#[trigger] places[k]) < walk.len(),
            forall|d: int| #[trigger]
                cut_off(*filter, walk@, i as int, d) <==> (cut matches Some(c) && d > c),
        decreases walk.len() - i,
    {
        let entry = &walk[i];
        let ghost depth = entry.depth as int;
        let below_cut = match cut {
            Some(c) => entry.depth > c,
            None => false,
        };
        proof {
            lemma_enclosing_is_before(walk@, i as int, depth);
            assert(cut_off(*filter, walk@, i as int, depth) == below_cut);
        }
        let ghost old_cut = cut;
        if !below_cut {
            if entry.depth > 0 && !filter.admits(entry.path.as_str(), entry.is_dir) {
                cut = Some(entry.depth);
            } else {
                cut = None;
                if entry.is_file {
                    places.push(i);
                }
            }
        }
        proof {
            assert forall|d: int| #[trigger]
                cut_off(*filter, walk@, i + 1, d) <==> (cut matches Some(c) && d > c) by {
                if d <= depth {
                    // What encloses an entry that is no deeper than this
                    // one is what enclosed it before.
                    assert(cut_off(*filter, walk@, i as int, d) <==> (old_cut matches Some(c) && d
                        > c));
                }
            }
        }
        i += 1;
    }
    places
}

/// A filter without globs that was not made of include patterns passes
/// over nothing: a walk with it comes to every entry of a listing.
pub proof fn lemma_unfiltered_walk_reaches_all(filter: UploadFilter, walk: Seq<WalkEntry>, i: int)
    requires
        filter.globs().len() == 0,
        !filter.include_only(),
        0 <= i < walk.len(),
    ensures
        reached(filter, walk, i),
    decreases i,
{
    lemma_enclosing_is_before(walk, i, walk[i].depth as int);
    if let Some(p) = enclosing(walk, i, walk[i].depth as int) {
        lemma_unfiltered_walk_reaches_all(filter, walk, p);
    }
}

/// What is admitted, said directly: the places among the first `n` of the
/// regular files that the walk comes to.
pub proof fn lemma_admitted_are_the_reached_files(
    filter: UploadFilter,
    walk: Seq<WalkEntry>,
    n: int,
    i: int,
)
    requires
        n <= walk.len(),
    ensures
        admitted(filter, walk, n).contains(i) <==> 0 <= i < n && walk[i].is_file && reached(
            filter,
            walk,
            i,
        ),
    decreases n,
{
    if n > 0 {
        lemma_admitted_are_the_reached_files(filter, walk, n - 1, i);
        let before = admitted(filter, walk, n - 1);
        if walk[n - 1].is_file && reached(filter, walk, n - 1) {
            assert(before.push(n - 1)[before.len() as int] == n - 1);
            assert forall|k: int| 0 <= k < before.len() implies before.push(n - 1)[k]
                == before[k] by {}
        }
    }
}

/// Without patterns nothing is left out: a build step without include and
/// without exclude patterns gives a filter without globs, and a walk with
/// such a filter admits every regular file of the listing.
pub proof fn lemma_no_patterns_admit_every_file(
    config: Builder,
    filter: UploadFilter,
    walk: Seq<WalkEntry>,
    i: int,
)
    requires
        config.upload_include is None,
        config.upload_exclude is None,
        filter.globs() == stored_globs(effective_patterns(config)),
        filter.include_only() == config.upload_include is Some,
        0 <= i < walk.len(),
        walk[i].is_file,
    ensures
        filter.globs().len() == 0,
        admitted(filter, walk, walk.len() as int).contains(i),
{
    lemma_unfiltered_walk_reaches_all(filter, walk, i);
    lemma_admitted_are_the_reached_files(filter, walk, walk.len() as int, i);
}

/// Include patterns that ask for nothing admit nothing: where the include
/// list is configured and gives no glob, be it empty or made of comments
/// and blank lines, a walk admits no file below its starting point.
pub proof fn lemma_empty_include_admits_no_file(
    config: Builder,
    filter: UploadFilter,
    walk: Seq<WalkEntry>,
    i: int,
)
    requires
        config.upload_include is Some,
        stored_globs(effective_patterns(config)).len() == 0,
        filter.globs() == stored_globs(effective_patterns(config)),
        filter.include_only() == config.upload_include is Some,
        0 <= i < walk.len(),
        walk[i].depth > 0,
        !walk[i].is_dir,
    ensures
        filter.verdict(walk[i].path@, walk[i].is_dir) == Verdict::Ignored,
        !admitted(filter, walk, walk.len() as int).contains(i),
{
    lemma_admitted_are_the_reached_files(filter, walk, walk.len() as int, i);
}

} // verus!
