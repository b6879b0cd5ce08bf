//! General properties of the scan, stated and proved once for all inputs.

use vstd::prelude::*;

use crate::opts::ProjectTree;
use crate::patterns::child_rel;
use crate::patterns::dotted;
use crate::patterns::in_patterns;
use crate::render::arranged;
use crate::render::connector;
use crate::render::dim_all;
use crate::render::entry_gpath;
use crate::render::entry_lines;
use crate::render::entry_own_line;
use crate::render::entry_rel;
use crate::render::folder_lines;
use crate::render::git_matched;
use crate::render::glyph_last;
use crate::render::glyph_mid;
use crate::render::prefix_all;
use crate::render::recurses;
use crate::render::render_lines;
use crate::render::scoped_active;
use crate::render::scoped_gpre;
use crate::render::segment;
use crate::render::survives;
use crate::render::survivors;
use crate::seqs::lemma_filter_all;
use crate::seqs::lemma_filter_none;
use crate::seqs::lemma_filter_remove;
use crate::seqs::seq_views;
use crate::style::dim_off;
use crate::style::dim_on;
use crate::style::dim_text;
use crate::style::escape_resets;
use crate::tree::dirs_of;
use crate::tree::files_of;
use crate::tree::Entry;
use crate::tree::Folder;

verus! {

/// One pattern, three spellings.  The entry called `name` inside the
/// directory at root-relative path `dir_rel` is matched whichever way its
/// pattern is added to the set: with a leading `./`, without it, or as the
/// bare file name.
pub proof fn lemma_pattern_forms_match(pats: Seq<Seq<char>>, dir_rel: Seq<char>, name: Seq<char>)
    ensures
        in_patterns(pats.push(dotted(child_rel(dir_rel, name))), child_rel(dir_rel, name), name),
        in_patterns(pats.push(child_rel(dir_rel, name)), child_rel(dir_rel, name), name),
        in_patterns(pats.push(name), child_rel(dir_rel, name), name),
{
    let rel = child_rel(dir_rel, name);
    assert(pats.push(dotted(rel))[pats.len() as int] == dotted(rel));
    assert(pats.push(rel)[pats.len() as int] == rel);
    assert(pats.push(name)[pats.len() as int] == name);
}

/// A filtered-out entry leaves no trace: the surviving entries of a listing
/// (whence the whole rendering) are the same with the entry and without it,
/// descendants included, since filtering happens before recursion.
pub proof fn lemma_dropped_entry_leaves_no_trace(
    cfg: ProjectTree,
    s: Seq<Entry>,
    active: Option<Seq<Seq<char>>>,
    rel: Seq<char>,
    gpre: Seq<char>,
    i: int,
)
    requires
        0 <= i < s.len(),
        !survives(cfg, active, rel, gpre, s[i]),
    ensures
        survivors(cfg, s.remove(i), active, rel, gpre) == survivors(cfg, s, active, rel, gpre),
{
    lemma_filter_remove(s, |e: Entry| survives(cfg, active, rel, gpre, e), i);
}

/// A directory that is listed but not entered - the stop set matches it, or
/// the active ruleset matches it under a stopping policy - contributes
/// exactly one line, its own, ending in the directory separator: no
/// descendant line appears, however many entries it holds.
pub proof fn lemma_stopped_dir_single_line(
    cfg: ProjectTree,
    e: Entry,
    active: Option<Seq<Seq<char>>>,
    rel: Seq<char>,
    gpre: Seq<char>,
    show: bool,
    is_last: bool,
)
    requires
        e.is_dir(),
        in_patterns(seq_views(cfg.stop_list@), entry_rel(rel, e), e.name()) || (git_matched(
            active,
            gpre,
            e,
        ) && cfg.gitignore_option.spec_stops()),
    ensures
        entry_lines(cfg, e, active, rel, gpre, show, is_last) == seq![
            entry_own_line(cfg, active, gpre, e, show, is_last),
        ],
        entry_lines(cfg, e, active, rel, gpre, show, is_last).len() == 1,
        entry_lines(cfg, e, active, rel, gpre, show, is_last)[0].last() == '/',
{
    assert(!recurses(cfg, active, rel, gpre, e));
    let own = entry_own_line(cfg, active, gpre, e, show, is_last);
    assert(own.last() == '/');
}

/// Prioritizing directories is a stable partition: every directory precedes
/// every file, directories keep their relative order among themselves, and so
/// do files.
pub proof fn lemma_arranged_stable_partition(s: Seq<Entry>)
    ensures
        arranged(true, s) == dirs_of(s) + files_of(s),
        dirs_of(arranged(true, s)) == dirs_of(s),
        files_of(arranged(true, s)) == files_of(s),
        forall|i: int|
            0 <= i < dirs_of(s).len() ==> (#[trigger] arranged(true, s)[i]).is_dir(),
        forall|i: int|
            dirs_of(s).len() <= i < arranged(true, s).len() ==> !(#[trigger] arranged(
                true,
                s,
            )[i]).is_dir(),
{
    broadcast use vstd::seq_lib::group_filter_ensures;

    let d = dirs_of(s);
    let f = files_of(s);
    let p = |e: Entry| e.is_dir();
    let q = |e: Entry| !e.is_dir();
    Seq::<Entry>::filter_distributes_over_add(d, f, p);
    Seq::<Entry>::filter_distributes_over_add(d, f, q);
    lemma_filter_all(d, p);
    lemma_filter_none(f, p);
    lemma_filter_all(f, q);
    lemma_filter_none(d, q);
    assert(dirs_of(d + f) =~= d);
    assert(files_of(d + f) =~= f);
    assert(forall|i: int| 0 <= i < d.len() ==> (#[trigger] (d + f)[i]).is_dir());
    assert(forall|i: int| d.len() <= i < (d + f).len() ==> !(#[trigger] (d + f)[i]).is_dir());
}

/// A folder with its own `.gitignore`, under an enabled policy, renders the
/// same whatever ruleset and matching prefix it inherits: the local ruleset
/// fully replaces its surroundings, nothing is merged.  In particular an
/// entry the inherited rules match, but the local rules do not, is kept.
pub proof fn lemma_local_ruleset_overrides(
    cfg: ProjectTree,
    f: Folder,
    a1: Option<Seq<Seq<char>>>,
    g1: Seq<char>,
    a2: Option<Seq<Seq<char>>>,
    g2: Seq<char>,
    rel: Seq<char>,
    show: bool,
)
    requires
        cfg.gitignore_option.spec_enabled(),
        f.gitignore is Some,
    ensures
        folder_lines(cfg, f, a1, rel, g1, show) == folder_lines(cfg, f, a2, rel, g2, show),
{
    assert(scoped_active(cfg.gitignore_option, f, a1) == scoped_active(
        cfg.gitignore_option,
        f,
        a2,
    ));
    assert(scoped_gpre(cfg.gitignore_option, f, g1) == scoped_gpre(cfg.gitignore_option, f, g2));
}

/// Dim propagation.  Every descendant line of a directory rendered dimmed
/// carries the dim styling: after this level's four-character prefix segment
/// the line turns dim styling on, and it ends with the style reset - however
/// deep the descendant, and whether or not it matches any rule itself.
pub proof fn lemma_dim_propagates(
    cfg: ProjectTree,
    e: Entry,
    active: Option<Seq<Seq<char>>>,
    rel: Seq<char>,
    gpre: Seq<char>,
    show: bool,
    is_last: bool,
    k: int,
)
    requires
        e.is_dir(),
        git_matched(active, gpre, e),
        cfg.gitignore_option.spec_dims(),
        recurses(cfg, active, rel, gpre, e),
        1 <= k < entry_lines(cfg, e, active, rel, gpre, show, is_last).len(),
    ensures
        entry_lines(cfg, e, active, rel, gpre, show, is_last)[k].len() >= 12,
        entry_lines(cfg, e, active, rel, gpre, show, is_last)[k].subrange(0, 4) == segment(
            is_last,
        ),
        entry_lines(cfg, e, active, rel, gpre, show, is_last)[k].subrange(4, 8) == dim_on(),
        entry_lines(cfg, e, active, rel, gpre, show, is_last)[k].subrange(
            entry_lines(cfg, e, active, rel, gpre, show, is_last)[k].len() - 4,
            entry_lines(cfg, e, active, rel, gpre, show, is_last)[k].len() as int,
        ) == dim_off(),
{
    let sub = folder_lines(cfg, e.folder(), active, entry_rel(rel, e), entry_gpath(gpre, e) + seq!['/'], true);
    let wrapped = dim_all(sub);
    let lines = entry_lines(cfg, e, active, rel, gpre, show, is_last);
    assert(lines == seq![entry_own_line(cfg, active, gpre, e, show, is_last)] + prefix_all(
        segment(is_last),
        wrapped,
    ));
    let line = lines[k];
    assert(line == segment(is_last) + dim_text(sub[k - 1]));
    assert(line =~= segment(is_last) + (dim_on() + escape_resets(sub[k - 1]) + dim_off()));
    assert(line.subrange(0, 4) =~= segment(is_last));
    assert(line.subrange(4, 8) =~= dim_on());
    assert(line.subrange(line.len() - 4, line.len() as int) =~= dim_off());
}

/// Each listed entry of a prepared listing is rendered with the last-entry
/// mark exactly when it stands at the listing's last index: the listing's
/// lines decompose into the entry's block followed by the rest.
pub proof fn lemma_listing_step(
    cfg: ProjectTree,
    s: Seq<Entry>,
    active: Option<Seq<Seq<char>>>,
    rel: Seq<char>,
    gpre: Seq<char>,
    show: bool,
    k: int,
)
    requires
        0 <= k < s.len(),
    ensures
        render_lines(cfg, s.skip(k), active, rel, gpre, show) == entry_lines(
            cfg,
            s[k],
            active,
            rel,
            gpre,
            show,
            k == s.len() - 1,
        ) + render_lines(cfg, s.skip(k + 1), active, rel, gpre, show),
{
    assert(s.skip(k)[0] == s[k]);
    assert(s.skip(k).drop_first() =~= s.skip(k + 1));
    assert((s.skip(k).len() == 1) == (k == s.len() - 1));
}

/// Connector correctness for one block: an entry's own line opens its block,
/// and it starts with the terminal glyph exactly for the last entry, the
/// mid-list glyph otherwise; with connectors off no glyph is drawn.  The two
/// glyphs differ, so exactly one entry of a connector-drawn listing carries
/// the terminal one.
pub proof fn lemma_connector_glyph(
    cfg: ProjectTree,
    e: Entry,
    active: Option<Seq<Seq<char>>>,
    rel: Seq<char>,
    gpre: Seq<char>,
    show: bool,
    is_last: bool,
)
    ensures
        entry_lines(cfg, e, active, rel, gpre, show, is_last)[0] == entry_own_line(
            cfg,
            active,
            gpre,
            e,
            show,
            is_last,
        ),
        show ==> entry_lines(cfg, e, active, rel, gpre, show, is_last)[0].subrange(0, 4)
            == connector(show, is_last),
        connector(true, true) == glyph_last(),
        connector(true, false) == glyph_mid(),
        !show ==> connector(show, is_last) == Seq::<char>::empty(),
        glyph_last() != glyph_mid(),
{
    let own = entry_own_line(cfg, active, gpre, e, show, is_last);
    assert(entry_lines(cfg, e, active, rel, gpre, show, is_last)[0] == own);
    if show {
        assert(own.subrange(0, 4) =~= connector(show, is_last));
    }
    assert(glyph_last()[0] != glyph_mid()[0]);
}

} // verus!
