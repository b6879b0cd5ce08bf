//! The functional specification of the rendered tree.
//!
//! [`folder_lines`] gives, line by line, the text the scanner produces for a
//! folder.  Lines are relative to the folder they describe: the prefix a
//! nested line carries is attached by each enclosing level as the recursion
//! unwinds, so no prefix argument is threaded through.

use vstd::prelude::*;

use crate::gitignore::accepted_rules;
use crate::gitignore::rules_build;
use crate::gitignore::rules_ignore;
use crate::opts::GitignoreOpt;
use crate::opts::ProjectTree;
use crate::patterns::child_rel;
use crate::patterns::in_patterns;
use crate::seqs::seq_views;
use crate::style::dim_text;
use crate::tree::dirs_of;
use crate::tree::entries_height;
use crate::tree::files_of;
use crate::tree::lemma_dirs_files_height;
use crate::tree::lemma_entries_height_add;
use crate::tree::lemma_entries_height_filter;
use crate::tree::lemma_entries_height_singleton;
use crate::tree::lemma_entry_height_le;
use crate::tree::Entry;
use crate::tree::Folder;

verus! {

/// The connector glyph of an entry that has siblings after it.
pub open spec fn glyph_mid() -> Seq<char> {
    seq!['\u{251c}', '\u{2500}', '\u{2500}', ' ']
}

/// The connector glyph of the last entry of a listing.
pub open spec fn glyph_last() -> Seq<char> {
    seq!['\u{2514}', '\u{2500}', '\u{2500}', ' ']
}

/// The prefix segment continuing past an entry that has siblings after it.
pub open spec fn seg_mid() -> Seq<char> {
    seq!['\u{2502}', ' ', ' ', ' ']
}

/// The prefix segment below the last entry of a listing.
pub open spec fn seg_last() -> Seq<char> {
    seq![' ', ' ', ' ', ' ']
}

/// The connector drawn before an entry's name.
pub open spec fn connector(show: bool, is_last: bool) -> Seq<char> {
    if !show {
        Seq::empty()
    } else if is_last {
        glyph_last()
    } else {
        glyph_mid()
    }
}

/// The prefix segment an entry passes down to its descendants' lines.
pub open spec fn segment(is_last: bool) -> Seq<char> {
    if is_last {
        seg_last()
    } else {
        seg_mid()
    }
}

/// The verdict of the active ruleset, if any, on a path.
pub open spec fn git_verdict(active: Option<Seq<Seq<char>>>, path: Seq<char>, is_dir: bool) -> bool {
    match active {
        Option::Some(rules) => rules_ignore(rules, path, is_dir),
        Option::None => false,
    }
}

/// The path of an entry relative to the active ruleset's directory.
pub open spec fn entry_gpath(gpre: Seq<char>, e: Entry) -> Seq<char> {
    gpre + e.name()
}

/// Whether the active ruleset, if any, matches the entry.
pub open spec fn git_matched(active: Option<Seq<Seq<char>>>, gpre: Seq<char>, e: Entry) -> bool {
    git_verdict(active, entry_gpath(gpre, e), e.is_dir())
}

/// The rules of the folder's own `.gitignore` file; meaningful only when it
/// has one.
pub open spec fn folder_rules(f: Folder) -> Seq<Seq<char>> {
    accepted_rules(seq_views(f.gitignore->0@))
}

/// Whether the folder installs a ruleset of its own for its subtree.
pub open spec fn has_local_rules(opt: GitignoreOpt, f: Folder) -> bool {
    opt.spec_enabled() && f.gitignore is Some
}

/// The ruleset in force inside the folder: its own, fully replacing the
/// inherited one, when it has a `.gitignore` and the policy reads them; the
/// inherited one otherwise.  Rules that fail to build leave a ruleset that
/// matches nothing, not the inherited one.
pub open spec fn scoped_active(opt: GitignoreOpt, f: Folder, active: Option<Seq<Seq<char>>>) -> Option<
    Seq<Seq<char>>,
> {
    if has_local_rules(opt, f) {
        if rules_build(folder_rules(f)) {
            Option::Some(folder_rules(f))
        } else {
            Option::Some(Seq::empty())
        }
    } else {
        active
    }
}

/// The matching prefix in force inside the folder: empty when the folder
/// installs its own ruleset, the inherited prefix otherwise.
pub open spec fn scoped_gpre(opt: GitignoreOpt, f: Folder, gpre: Seq<char>) -> Seq<char> {
    if has_local_rules(opt, f) {
        Seq::empty()
    } else {
        gpre
    }
}

/// The root-relative path of an entry of the directory at `rel`.
pub open spec fn entry_rel(rel: Seq<char>, e: Entry) -> Seq<char> {
    child_rel(rel, e.name())
}

/// Whether an entry stays in the listing: it survives unless the ignore set
/// matches it, or the policy removes gitignore-matched entries and the active
/// ruleset matches it.
pub open spec fn survives(
    cfg: ProjectTree,
    active: Option<Seq<Seq<char>>>,
    rel: Seq<char>,
    gpre: Seq<char>,
    e: Entry,
) -> bool {
    &&& !in_patterns(seq_views(cfg.ignore_list@), entry_rel(rel, e), e.name())
    &&& !(cfg.gitignore_option.spec_ignores() && git_matched(active, gpre, e))
}

/// The entries of a listing that stay, in listing order.
pub open spec fn survivors(
    cfg: ProjectTree,
    s: Seq<Entry>,
    active: Option<Seq<Seq<char>>>,
    rel: Seq<char>,
    gpre: Seq<char>,
) -> Seq<Entry> {
    s.filter(|e: Entry| survives(cfg, active, rel, gpre, e))
}

/// The listing order: a stable partition with directories first when
/// prioritization is on, the listing order otherwise.
pub open spec fn arranged(prio: bool, s: Seq<Entry>) -> Seq<Entry> {
    if prio {
        dirs_of(s) + files_of(s)
    } else {
        s
    }
}

/// The folder's listing as rendered: filtered under the folder's own scope,
/// then arranged.
pub open spec fn prepared(
    cfg: ProjectTree,
    f: Folder,
    active: Option<Seq<Seq<char>>>,
    rel: Seq<char>,
    gpre: Seq<char>,
) -> Seq<Entry> {
    arranged(
        cfg.prioritize_dirs,
        survivors(
            cfg,
            f.entries@,
            scoped_active(cfg.gitignore_option, f, active),
            rel,
            scoped_gpre(cfg.gitignore_option, f, gpre),
        ),
    )
}

/// Whether a listed directory is entered: it is unless the stop set matches
/// it, or the policy stops at gitignore-matched directories and the active
/// ruleset matches it.
pub open spec fn recurses(
    cfg: ProjectTree,
    active: Option<Seq<Seq<char>>>,
    rel: Seq<char>,
    gpre: Seq<char>,
    e: Entry,
) -> bool {
    &&& !(git_matched(active, gpre, e) && cfg.gitignore_option.spec_stops())
    &&& !in_patterns(seq_views(cfg.stop_list@), entry_rel(rel, e), e.name())
}

/// Every line dimmed.
pub open spec fn dim_all(lines: Seq<Seq<char>>) -> Seq<Seq<char>> {
    lines.map_values(|l: Seq<char>| dim_text(l))
}

/// Every line behind a fixed prefix.
pub open spec fn prefix_all(pre: Seq<char>, lines: Seq<Seq<char>>) -> Seq<Seq<char>> {
    lines.map_values(|l: Seq<char>| pre + l)
}

/// An entry's own line: connector, name (dimmed when the active ruleset
/// matches the entry under a dimming policy), and a trailing separator for a
/// directory.
pub open spec fn entry_own_line(
    cfg: ProjectTree,
    active: Option<Seq<Seq<char>>>,
    gpre: Seq<char>,
    e: Entry,
    show: bool,
    is_last: bool,
) -> Seq<char> {
    let styled = if git_matched(active, gpre, e) && cfg.gitignore_option.spec_dims() {
        dim_text(e.name())
    } else {
        e.name()
    };
    connector(show, is_last) + styled + (if e.is_dir() {
        seq!['/']
    } else {
        Seq::<char>::empty()
    })
}

/// The rendered lines of a folder, relative to the folder itself.  `active`
/// and `gpre` are the inherited ruleset and matching prefix; `rel` is the
/// folder's root-relative path; `show` tells whether this listing draws
/// connectors.
pub open spec fn folder_lines(
    cfg: ProjectTree,
    f: Folder,
    active: Option<Seq<Seq<char>>>,
    rel: Seq<char>,
    gpre: Seq<char>,
    show: bool,
) -> Seq<Seq<char>>
    decreases f.height(), 3int, 0int,
        via folder_lines_dec
{
    render_lines(
        cfg,
        prepared(cfg, f, active, rel, gpre),
        scoped_active(cfg.gitignore_option, f, active),
        rel,
        scoped_gpre(cfg.gitignore_option, f, gpre),
        show,
    )
}

/// The rendered lines of a prepared listing: each entry's block in order,
/// the last entry marked as such.
pub open spec fn render_lines(
    cfg: ProjectTree,
    s: Seq<Entry>,
    active: Option<Seq<Seq<char>>>,
    rel: Seq<char>,
    gpre: Seq<char>,
    show: bool,
) -> Seq<Seq<char>>
    decreases entries_height(s), 2int, s.len(),
        via render_lines_dec
{
    if s.len() == 0 {
        Seq::empty()
    } else {
        entry_lines(cfg, s[0], active, rel, gpre, show, s.len() == 1) + render_lines(
            cfg,
            s.drop_first(),
            active,
            rel,
            gpre,
            show,
        )
    }
}

/// The block a listed entry contributes: its own line and, for a directory
/// that is entered, the lines of its subtree, each behind this level's
/// segment and, when the directory is rendered dimmed, wrapped in dim
/// styling.
pub open spec fn entry_lines(
    cfg: ProjectTree,
    e: Entry,
    active: Option<Seq<Seq<char>>>,
    rel: Seq<char>,
    gpre: Seq<char>,
    show: bool,
    is_last: bool,
) -> Seq<Seq<char>>
    decreases e.height(), 1int, 0int,
        via entry_lines_dec
{
    let own = entry_own_line(cfg, active, gpre, e, show, is_last);
    if e.is_dir() && recurses(cfg, active, rel, gpre, e) {
        let sub = folder_lines(
            cfg,
            e.folder(),
            active,
            entry_rel(rel, e),
            entry_gpath(gpre, e) + seq!['/'],
            true,
        );
        let wrapped = if git_matched(active, gpre, e) && cfg.gitignore_option.spec_dims() {
            dim_all(sub)
        } else {
            sub
        };
        seq![own] + prefix_all(segment(is_last), wrapped)
    } else {
        seq![own]
    }
}

pub proof fn lemma_prepared_height(
    cfg: ProjectTree,
    f: Folder,
    active: Option<Seq<Seq<char>>>,
    rel: Seq<char>,
    gpre: Seq<char>,
)
    ensures
        entries_height(prepared(cfg, f, active, rel, gpre)) <= f.height(),
{
    let act = scoped_active(cfg.gitignore_option, f, active);
    let gp = scoped_gpre(cfg.gitignore_option, f, gpre);
    let kept = survivors(cfg, f.entries@, act, rel, gp);
    lemma_entries_height_filter(f.entries@, |e: Entry| survives(cfg, act, rel, gp, e));
    if cfg.prioritize_dirs {
        lemma_entries_height_add(dirs_of(kept), files_of(kept));
        lemma_dirs_files_height(kept);
    }
}

#[via_fn]
proof fn folder_lines_dec(
    cfg: ProjectTree,
    f: Folder,
    active: Option<Seq<Seq<char>>>,
    rel: Seq<char>,
    gpre: Seq<char>,
    show: bool,
) {
    lemma_prepared_height(cfg, f, active, rel, gpre);
}

#[via_fn]
proof fn render_lines_dec(
    cfg: ProjectTree,
    s: Seq<Entry>,
    active: Option<Seq<Seq<char>>>,
    rel: Seq<char>,
    gpre: Seq<char>,
    show: bool,
) {
    if s.len() != 0 {
        lemma_entry_height_le(s, 0);
        assert(s =~= seq![s[0]] + s.drop_first());
        lemma_entries_height_add(seq![s[0]], s.drop_first());
        lemma_entries_height_singleton(s[0]);
    }
}

#[via_fn]
proof fn entry_lines_dec(
    cfg: ProjectTree,
    e: Entry,
    active: Option<Seq<Seq<char>>>,
    rel: Seq<char>,
    gpre: Seq<char>,
    show: bool,
    is_last: bool,
) {
}

} // verus!
