//! The recursive scanner: the executable rendering of a folder tree.

use vstd::prelude::*;
use vstd::string::StringExecFns;

use ignore::gitignore::Gitignore;

use crate::gitignore::matcher_empty;
use crate::gitignore::matcher_is_ignored;
use crate::gitignore::matcher_rules;
use crate::gitignore::ruleset_from_lines;
use crate::opts::ProjectTree;
use crate::patterns::child_rel_string;
use crate::patterns::matches_patterns;
use crate::render::dim_all;
use crate::render::entry_gpath;
use crate::render::entry_lines;
use crate::render::entry_own_line;
use crate::render::folder_lines;
use crate::render::git_matched;
use crate::render::git_verdict;
use crate::render::glyph_last;
use crate::render::glyph_mid;
use crate::render::has_local_rules;
use crate::render::prefix_all;
use crate::render::prepared;
use crate::render::recurses;
use crate::render::render_lines;
use crate::render::scoped_active;
use crate::render::scoped_gpre;
use crate::render::segment;
use crate::render::survives;
use crate::render::survivors;
use crate::render::lemma_prepared_height;
use crate::seqs::lemma_filter_push;
use crate::seqs::seq_views;
use crate::style::dim_string;
use crate::style::dim_text;
use crate::tree::dirs_of;
use crate::tree::files_of;
use crate::tree::lemma_entry_height_le;
use crate::tree::Entry;
use crate::tree::Folder;

verus! {

/// The rules of the ruleset a scan level carries, if it carries one.
pub open spec fn opt_rules(act: Option<&Gitignore>) -> Option<Seq<Seq<char>>> {
    match act {
        Option::Some(g) => Option::Some(matcher_rules(*g)),
        Option::None => Option::None,
    }
}

/// The entries a sequence of indices picks out of a listing.
spec fn picked(ents: Seq<Entry>, idx: Seq<usize>) -> Seq<Entry> {
    idx.map_values(|i: usize| ents[i as int])
}

fn entry_name(e: &Entry) -> (n: &String)
    ensures
        n@ == e.name(),
{
    match e {
        Entry::File { name } => name,
        Entry::Dir { name, .. } => name,
    }
}

fn entry_is_dir(e: &Entry) -> (b: bool)
    ensures
        b == e.is_dir(),
{
    match e {
        Entry::Dir { .. } => true,
        Entry::File { .. } => false,
    }
}

/// The active ruleset's verdict on a path; no ruleset matches nothing.
fn check_git(act: Option<&Gitignore>, path: &String, is_dir: bool) -> (b: bool)
    ensures
        b == git_verdict(opt_rules(act), path@, is_dir),
{
    match act {
        Option::Some(g) => matcher_is_ignored(g, path, is_dir),
        Option::None => false,
    }
}

impl ProjectTree {
    /// Render the subtree below `folder` as lines, each behind `cur_prefix`.
    /// Connectors are drawn for this first listing only when `show_lines` is
    /// set; nested listings always draw them.
    pub fn scan_folder(&self, folder: &Folder, cur_prefix: String, show_lines: bool) -> (lines: Vec<
        String,
    >)
        ensures
            seq_views(lines@) == prefix_all(
                cur_prefix@,
                folder_lines(
                    *self,
                    *folder,
                    Option::None,
                    Seq::<char>::empty(),
                    Seq::<char>::empty(),
                    show_lines,
                ),
            ),
    {
        let rel = String::new();
        let gpre = String::new();
        let raw = self.scan_rec(folder, Option::None, &rel, &gpre, show_lines);
        let ghost spec_lines = folder_lines(
            *self,
            *folder,
            Option::None,
            Seq::<char>::empty(),
            Seq::<char>::empty(),
            show_lines,
        );
        let mut out: Vec<String> = Vec::new();
        let mut i: usize = 0;
        while i < raw.len()
            invariant
                0 <= i <= raw.len(),
                seq_views(raw@) == spec_lines,
                seq_views(out@) =~= prefix_all(cur_prefix@, spec_lines).take(i as int),
            decreases raw.len() - i,
        {
            let mut l = cur_prefix.clone();
            l.append(raw[i].as_str());
            let ghost lv = l@;
            out.push(l);
            proof {
                assert(lv == cur_prefix@ + spec_lines[i as int]);
                assert(seq_views(out@) =~= prefix_all(cur_prefix@, spec_lines).take(i as int).push(
                    lv,
                ));
                assert(prefix_all(cur_prefix@, spec_lines).take(i + 1) =~= prefix_all(
                    cur_prefix@,
                    spec_lines,
                ).take(i as int).push(lv));
            }
            i += 1;
        }
        proof {
            assert(prefix_all(cur_prefix@, spec_lines).take(raw@.len() as int) =~= prefix_all(
                cur_prefix@,
                spec_lines,
            ));
        }
        out
    }

    /// One level of the scan: `active` and `gpre` are the inherited ruleset
    /// and matching prefix, `rel` the folder's root-relative path.  The lines
    /// come back relative to `f`; the caller attaches its own prefix.
    #[verifier::loop_isolation(false)]
    #[verifier::rlimit(100)]
    fn scan_rec(
        &self,
        f: &Folder,
        active: Option<&Gitignore>,
        rel: &String,
        gpre: &String,
        show: bool,
    ) -> (lines: Vec<String>)
        ensures
            seq_views(lines@) == folder_lines(*self, *f, opt_rules(active), rel@, gpre@, show),
        decreases f.height(), 1int,
    {
        let ghost cfg = *self;

        // Scope entry: a folder with its own `.gitignore` replaces the
        // inherited ruleset for this level and everything below it; rules
        // that fail to build leave a ruleset that matches nothing.
        let local_gpre = String::new();
        let mut local: Option<Gitignore> = Option::None;
        if self.gitignore_option.is_enabled() {
            match &f.gitignore {
                Option::Some(lines_vec) => {
                    match ruleset_from_lines(lines_vec) {
                        Option::Some(g) => {
                            local = Option::Some(g);
                        },
                        Option::None => {
                            local = Option::Some(matcher_empty());
                        },
                    }
                },
                Option::None => {},
            }
        }
        let act: Option<&Gitignore> = match &local {
            Option::Some(g) => Option::Some(g),
            Option::None => active,
        };
        let gp: &String = if local.is_some() {
            &local_gpre
        } else {
            gpre
        };
        let ghost sact = opt_rules(act);
        let ghost sgp = gp@;
        proof {
            assert(local is Some <==> has_local_rules(cfg.gitignore_option, *f));
            assert(sact == scoped_active(cfg.gitignore_option, *f, opt_rules(active)));
            assert(sgp == scoped_gpre(cfg.gitignore_option, *f, gpre@));
        }

        // Filter: drop entries the ignore set matches, and, under the
        // removing policy, entries the active ruleset matches.
        let ghost ents = f.entries@;
        let n = f.entries.len();
        let mut keep_all: Vec<usize> = Vec::new();
        let mut keep_dirs: Vec<usize> = Vec::new();
        let mut keep_files: Vec<usize> = Vec::new();
        let mut i: usize = 0;
        proof {
            assert(ents.take(0) =~= Seq::<Entry>::empty());
            reveal(Seq::filter);
        }
        while i < n
            invariant
                0 <= i <= n,
                picked(ents, keep_all@) =~= survivors(cfg, ents.take(i as int), sact, rel@, sgp),
                picked(ents, keep_dirs@) =~= dirs_of(
                    survivors(cfg, ents.take(i as int), sact, rel@, sgp),
                ),
                picked(ents, keep_files@) =~= files_of(
                    survivors(cfg, ents.take(i as int), sact, rel@, sgp),
                ),
                forall|j: int| 0 <= j < keep_all@.len() ==> keep_all@[j] < i,
                forall|j: int| 0 <= j < keep_dirs@.len() ==> keep_dirs@[j] < i,
                forall|j: int| 0 <= j < keep_files@.len() ==> keep_files@[j] < i,
            decreases n - i,
        {
            let e = &f.entries[i];
            let name = entry_name(e);
            let is_dir = entry_is_dir(e);
            let erel = child_rel_string(rel, name);
            let mut gpath = gp.clone();
            gpath.append(name.as_str());
            let ignore_hit = matches_patterns(&self.ignore_list, &erel, name);
            let git_drop = self.gitignore_option.should_ignore() && check_git(act, &gpath, is_dir);
            proof {
                assert(gpath@ == entry_gpath(sgp, *e));
                assert((!ignore_hit && !git_drop) == survives(cfg, sact, rel@, sgp, *e));
                assert(ents.take(i + 1) =~= ents.take(i as int).push(ents[i as int]));
                lemma_filter_push(
                    ents.take(i as int),
                    |x: Entry| survives(cfg, sact, rel@, sgp, x),
                    ents[i as int],
                );
                if !ignore_hit && !git_drop {
                    lemma_filter_push(
                        survivors(cfg, ents.take(i as int), sact, rel@, sgp),
                        |x: Entry| x.is_dir(),
                        ents[i as int],
                    );
                    lemma_filter_push(
                        survivors(cfg, ents.take(i as int), sact, rel@, sgp),
                        |x: Entry| !x.is_dir(),
                        ents[i as int],
                    );
                }
            }
            if !ignore_hit && !git_drop {
                keep_all.push(i);
                if is_dir {
                    keep_dirs.push(i);
                } else {
                    keep_files.push(i);
                }
            }
            i += 1;
        }
        proof {
            assert(ents.take(n as int) =~= ents);
        }
        let ghost kept = survivors(cfg, ents, sact, rel@, sgp);

        // Arrange: directories first, stably, when prioritization is on.
        let order: Vec<usize> = if self.prioritize_dirs {
            let mut o = keep_dirs;
            let mut rest = keep_files;
            o.append(&mut rest);
            proof {
                assert(picked(ents, o@) =~= dirs_of(kept) + files_of(kept));
            }
            o
        } else {
            keep_all
        };
        let ghost sall = prepared(cfg, *f, opt_rules(active), rel@, gpre@);
        proof {
            assert(picked(ents, order@) =~= sall);
            assert(order@.len() == sall.len());
        }

        // Render each surviving entry's block in order.
        let m = order.len();
        let mut lines: Vec<String> = Vec::new();
        let mut k: usize = 0;
        proof {
            assert(sall.skip(0) =~= sall);
            assert(seq_views(lines@) =~= Seq::<Seq<char>>::empty());
            assert(Seq::<Seq<char>>::empty() + render_lines(cfg, sall, sact, rel@, sgp, show)
                =~= render_lines(cfg, sall, sact, rel@, sgp, show));
        }
        while k < m
            invariant
                0 <= k <= m,
                seq_views(lines@) + render_lines(cfg, sall.skip(k as int), sact, rel@, sgp, show)
                    == render_lines(cfg, sall, sact, rel@, sgp, show),
            decreases m - k,
        {
            let idx = order[k];
            let e = &f.entries[idx];
            let is_last = k == m - 1;
            proof {
                assert(sall[k as int] == ents[order@[k as int] as int]);
                assert(*e == sall[k as int]);
                lemma_prepared_height(cfg, *f, opt_rules(active), rel@, gpre@);
                lemma_entry_height_le(sall, k as int);
            }
            let mut block = self.render_block(e, act, rel, gp, show, is_last);
            let ghost snap = lines@;
            lines.append(&mut block);
            proof {
                assert(seq_views(lines@) =~= seq_views(snap) + entry_lines(
                    cfg,
                    sall[k as int],
                    sact,
                    rel@,
                    sgp,
                    show,
                    is_last,
                ));
                assert(sall.skip(k as int)[0] == sall[k as int]);
                assert(sall.skip(k as int).drop_first() =~= sall.skip(k as int + 1));
                assert((k as int == m - 1) == (sall.skip(k as int).len() == 1));
                assert(render_lines(cfg, sall.skip(k as int), sact, rel@, sgp, show) == entry_lines(
                    cfg,
                    sall[k as int],
                    sact,
                    rel@,
                    sgp,
                    show,
                    is_last,
                ) + render_lines(cfg, sall.skip(k as int + 1), sact, rel@, sgp, show));
                assert(seq_views(lines@) + render_lines(
                    cfg,
                    sall.skip(k as int + 1),
                    sact,
                    rel@,
                    sgp,
                    show,
                ) =~= render_lines(cfg, sall, sact, rel@, sgp, show));
            }
            k += 1;
        }
        proof {
            assert(sall.skip(m as int) =~= Seq::<Entry>::empty());
            assert(render_lines(cfg, sall.skip(m as int), sact, rel@, sgp, show)
                =~= Seq::<Seq<char>>::empty());
            assert(seq_views(lines@) =~= render_lines(cfg, sall, sact, rel@, sgp, show));
        }
        lines
    }

    /// The lines one listed entry contributes: its own line and, for a
    /// directory that is entered, its subtree's lines behind this level's
    /// segment, dim-wrapped when the entry is rendered dimmed.
    #[verifier::loop_isolation(false)]
    #[verifier::rlimit(100)]
    fn render_block(
        &self,
        e: &Entry,
        act: Option<&Gitignore>,
        rel: &String,
        gp: &String,
        show: bool,
        is_last: bool,
    ) -> (block: Vec<String>)
        ensures
            seq_views(block@) == entry_lines(*self, *e, opt_rules(act), rel@, gp@, show, is_last),
        decreases e.height(), 0int,
    {
        let ghost cfg = *self;
        let ghost sact = opt_rules(act);
        let ghost sgp = gp@;
        let mut lines: Vec<String> = Vec::new();
        {
            let name = entry_name(e);
            let is_dir = entry_is_dir(e);
            let mut gpath = gp.clone();
            gpath.append(name.as_str());
            let git_hit = check_git(act, &gpath, is_dir);
            let dim_this = git_hit && self.gitignore_option.should_dim();
            proof {
                assert(gpath@ == entry_gpath(sgp, *e));
                assert(git_hit == git_matched(sact, sgp, *e));
            }
            let styled: String = if dim_this {
                dim_string(name.as_str())
            } else {
                name.clone()
            };
            let mut own = String::new();
            if show {
                if is_last {
                    own.append("\u{2514}\u{2500}\u{2500} ");
                } else {
                    own.append("\u{251c}\u{2500}\u{2500} ");
                }
            }
            own.append(styled.as_str());
            if is_dir {
                own.append("/");
            }
            proof {
                reveal_strlit("\u{2514}\u{2500}\u{2500} ");
                reveal_strlit("\u{251c}\u{2500}\u{2500} ");
                reveal_strlit("/");
                assert("\u{2514}\u{2500}\u{2500} "@ =~= glyph_last());
                assert("\u{251c}\u{2500}\u{2500} "@ =~= glyph_mid());
                assert("/"@ =~= seq!['/']);
                assert(own@ =~= entry_own_line(cfg, sact, sgp, *e, show, is_last));
            }
            let ghost own_v = own@;
            let ghost snap = lines@;
            lines.push(own);

            let mut entered = false;
            if is_dir {
                let erel = child_rel_string(rel, name);
                let stop_hit = matches_patterns(&self.stop_list, &erel, name);
                let git_stop = git_hit && self.gitignore_option.should_stop();
                proof {
                    assert((!git_stop && !stop_hit) == recurses(cfg, sact, rel@, sgp, *e));
                }
                if !git_stop && !stop_hit {
                    entered = true;
                    let mut cgp = gp.clone();
                    cgp.append(name.as_str());
                    cgp.append("/");
                    proof {
                        reveal_strlit("/");
                        assert(cgp@ =~= entry_gpath(sgp, *e) + seq!['/']);
                    }
                    match e {
                        Entry::Dir { name: _, folder } => {
                            proof {
                                assert(e.height() == 1 + folder.height());
                            }
                            let sub = self.scan_rec(folder, act, &erel, &cgp, true);
                            let ghost sub_spec = seq_views(sub@);
                            let ghost wrapped = if dim_this {
                                dim_all(sub_spec)
                            } else {
                                sub_spec
                            };
                            let seg: &str = if is_last {
                                "    "
                            } else {
                                "\u{2502}   "
                            };
                            proof {
                                reveal_strlit("    ");
                                reveal_strlit("\u{2502}   ");
                                assert(seg@ =~= segment(is_last));
                            }
                            let mut j: usize = 0;
                            while j < sub.len()
                                invariant
                                    0 <= j <= sub.len(),
                                    seq_views(lines@) =~= seq_views(snap) + seq![own_v]
                                        + prefix_all(segment(is_last), wrapped).take(j as int),
                                decreases sub.len() - j,
                            {
                                let mut lj = String::from_str(seg);
                                if dim_this {
                                    let d = dim_string(sub[j].as_str());
                                    lj.append(d.as_str());
                                } else {
                                    lj.append(sub[j].as_str());
                                }
                                proof {
                                    assert(wrapped[j as int] == if dim_this {
                                        dim_text(sub_spec[j as int])
                                    } else {
                                        sub_spec[j as int]
                                    });
                                    assert(lj@ == segment(is_last) + wrapped[j as int]);
                                }
                                let ghost ljv = lj@;
                                let ghost prev = lines@;
                                lines.push(lj);
                                proof {
                                    assert(seq_views(lines@) =~= seq_views(prev).push(ljv));
                                    assert(prefix_all(segment(is_last), wrapped).take(j + 1)
                                        =~= prefix_all(segment(is_last), wrapped).take(
                                        j as int,
                                    ).push(segment(is_last) + wrapped[j as int]));
                                    assert(seq_views(lines@) =~= seq_views(snap) + seq![own_v]
                                        + prefix_all(segment(is_last), wrapped).take(j + 1));
                                }
                                j += 1;
                            }
                            proof {
                                assert(prefix_all(segment(is_last), wrapped).take(
                                    sub@.len() as int,
                                ) =~= prefix_all(segment(is_last), wrapped));
                                assert(entry_lines(cfg, *e, sact, rel@, sgp, show, is_last)
                                    == seq![own_v] + prefix_all(segment(is_last), wrapped));
                                assert(seq_views(lines@) =~= seq![own_v] + prefix_all(
                                    segment(is_last),
                                    wrapped,
                                ));
                            }
                        },
                        Entry::File { .. } => {
                            proof {
                                assert(false);
                            }
                        },
                    }
                }
            }
            proof {
                if !entered {
                    assert(!(e.is_dir() && recurses(cfg, sact, rel@, sgp, *e)));
                    assert(entry_lines(cfg, *e, sact, rel@, sgp, show, is_last) =~= seq![own_v]);
                    assert(seq_views(lines@) =~= seq![own_v]);
                }
            }
        }
        lines
    }
}

} // verus!
