//! The trusted interface to the `ignore` crate's gitignore matching.
//!
//! A matcher is always built from explicit lines with an empty root path, so
//! every verdict is a function of the lines fed to the builder, the queried
//! path (relative to the directory the `.gitignore` came from), and the
//! is-directory flag.  Those functions are given names here; the wrappers'
//! contracts speak of the names and are believed, not proved.

use vstd::prelude::*;

use ignore::gitignore::Gitignore;
use ignore::gitignore::GitignoreBuilder;

use crate::seqs::lemma_filter_push;
use crate::seqs::seq_views;

verus! {

#[verifier::external_type_specification]
#[verifier::external_body]
pub struct ExGitignore(Gitignore);

#[verifier::external_type_specification]
#[verifier::external_body]
pub struct ExGitignoreBuilder(GitignoreBuilder);

/// The lines a builder has accepted so far, in order.
pub uninterp spec fn builder_rules(b: GitignoreBuilder) -> Seq<Seq<char>>;

/// The lines a built matcher answers for.
pub uninterp spec fn matcher_rules(g: Gitignore) -> Seq<Seq<char>>;

/// Whether `GitignoreBuilder::add_line` accepts the line.  With the builder's
/// construction-time defaults (case-sensitive, unclosed classes allowed),
/// which nothing here ever changes, acceptance is a property of the line
/// alone.
pub uninterp spec fn line_accepted(line: Seq<char>) -> bool;

/// Whether `GitignoreBuilder::build` succeeds on these accepted lines.
pub uninterp spec fn rules_build(rules: Seq<Seq<char>>) -> bool;

/// Whether a matcher built with an empty root from `rules` answers "ignored"
/// for `path` (relative to the ruleset's directory), given whether the path
/// is a directory.
pub uninterp spec fn rules_ignore(rules: Seq<Seq<char>>, path: Seq<char>, is_dir: bool) -> bool;

/// Relies on `ignore::gitignore::GitignoreBuilder::new`: a fresh builder holds
/// no rules.  The root is fixed to the empty path, so matching never strips a
/// directory prefix from queried paths.
#[verifier::external_body]
fn builder_new() -> (b: GitignoreBuilder)
    ensures
        builder_rules(b) == Seq::<Seq<char>>::empty(),
{
    GitignoreBuilder::new("")
}

/// Relies on `ignore::gitignore::GitignoreBuilder::add_line`: acceptance
/// depends on the line alone (the builder's matching flags keep their
/// construction-time defaults); an accepted line is appended to the builder's
/// rules, and a rejected one returns before the builder is touched.
#[verifier::external_body]
fn builder_add_line(b: &mut GitignoreBuilder, line: &String) -> (ok: bool)
    ensures
        ok == line_accepted(line@),
        ok ==> builder_rules(*final(b)) == builder_rules(*old(b)).push(line@),
        !ok ==> builder_rules(*final(b)) == builder_rules(*old(b)),
{
    b.add_line(None, line.as_str()).is_ok()
}

/// Relies on `ignore::gitignore::GitignoreBuilder::build`: success depends on
/// the accepted lines alone, and the built matcher answers for exactly those
/// lines.
#[verifier::external_body]
fn builder_build(b: &GitignoreBuilder) -> (g: Option<Gitignore>)
    ensures
        (g is Some) == rules_build(builder_rules(*b)),
        g is Some ==> matcher_rules(g->0) == builder_rules(*b),
{
    b.build().ok()
}

/// Relies on `ignore::gitignore::Gitignore::empty`: a matcher with no rules.
#[verifier::external_body]
pub(crate) fn matcher_empty() -> (g: Gitignore)
    ensures
        matcher_rules(g) == Seq::<Seq<char>>::empty(),
{
    Gitignore::empty()
}

/// Relies on `ignore::gitignore::Gitignore::matched`: with the matcher's root
/// empty, the verdict depends only on its rules, the queried path, and the
/// is-directory flag.
#[verifier::external_body]
pub(crate) fn matcher_is_ignored(g: &Gitignore, path: &String, is_dir: bool) -> (r: bool)
    ensures
        r == rules_ignore(matcher_rules(*g), path@, is_dir),
{
    g.matched(path.as_str(), is_dir).is_ignore()
}

/// The rules a `.gitignore` file's lines yield: the accepted lines, in order.
pub open spec fn accepted_rules(lines: Seq<Seq<char>>) -> Seq<Seq<char>> {
    lines.filter(|l: Seq<char>| line_accepted(l))
}

/// Parse the lines of a `.gitignore` file into a matcher.  Rejected lines are
/// skipped; `None` comes back only when the accepted rules fail to build.
pub(crate) fn ruleset_from_lines(lines: &Vec<String>) -> (g: Option<Gitignore>)
    ensures
        (g is Some) == rules_build(accepted_rules(seq_views(lines@))),
        g is Some ==> matcher_rules(g->0) == accepted_rules(seq_views(lines@)),
{
    let ghost vs = seq_views(lines@);
    let mut b = builder_new();
    let mut i: usize = 0;
    proof {
        assert(vs.take(0) =~= Seq::<Seq<char>>::empty());
        assert(accepted_rules(Seq::<Seq<char>>::empty()) == Seq::<Seq<char>>::empty()) by {
            reveal(Seq::filter);
        }
    }
    while i < lines.len()
        invariant
            0 <= i <= lines.len(),
            vs == seq_views(lines@),
            vs.len() == lines@.len(),
            builder_rules(b) == accepted_rules(vs.take(i as int)),
        decreases lines.len() - i,
    {
        let _ = builder_add_line(&mut b, &lines[i]);
        proof {
            assert(vs[i as int] == lines@[i as int]@);
            assert(vs.take(i + 1) =~= vs.take(i as int).push(vs[i as int]));
            lemma_filter_push(vs.take(i as int), |l: Seq<char>| line_accepted(l), vs[i as int]);
        }
        i += 1;
    }
    proof {
        assert(vs.take(lines@.len() as int) =~= vs);
    }
    builder_build(&b)
}

} // verus!
