//! Three-way matching of paths against a configured pattern set.
//!
//! A pattern may be written root-relative with a leading `./`, root-relative
//! without it, or as a bare file name; every set membership test tries all
//! three readings of the candidate path.

use vstd::prelude::*;
use vstd::string::StringExecFns;

use crate::seqs::seq_views;

verus! {

/// The path with a leading `./` attached.
pub open spec fn dotted(p: Seq<char>) -> Seq<char> {
    seq!['.', '/'] + p
}

/// The root-relative path of an entry called `name` inside the directory at
/// root-relative path `dir_rel` (empty at the root).
pub open spec fn child_rel(dir_rel: Seq<char>, name: Seq<char>) -> Seq<char> {
    if dir_rel.len() == 0 {
        name
    } else {
        dir_rel + seq!['/'] + name
    }
}

/// Whether the entry at root-relative path `rel`, whose file name is `name`,
/// matches the pattern set under any of the three readings.
pub open spec fn in_patterns(pats: Seq<Seq<char>>, rel: Seq<char>, name: Seq<char>) -> bool {
    pats.contains(dotted(rel)) || pats.contains(rel) || pats.contains(name)
}

/// The candidate path with a leading `./`.
pub fn dotted_string(rel: &String) -> (r: String)
    ensures
        r@ == dotted(rel@),
{
    proof {
        reveal_strlit("./");
    }
    let mut r = String::from_str("./");
    r.append(rel.as_str());
    proof {
        assert(r@ =~= dotted(rel@));
    }
    r
}

/// The root-relative path of the entry called `name` inside the directory at
/// root-relative path `rel`.
pub fn child_rel_string(rel: &String, name: &String) -> (r: String)
    ensures
        r@ == child_rel(rel@, name@),
{
    if rel.as_str().is_empty() {
        name.clone()
    } else {
        proof {
            reveal_strlit("/");
        }
        let mut r = rel.clone();
        r.append("/");
        r.append(name.as_str());
        proof {
            assert(r@ =~= child_rel(rel@, name@));
        }
        r
    }
}

/// The three-way membership test for the entry at root-relative path `rel`
/// with file name `name`.
pub fn matches_patterns(pats: &Vec<String>, rel: &String, name: &String) -> (r: bool)
    ensures
        r == in_patterns(seq_views(pats@), rel@, name@),
{
    let dotted_rel = dotted_string(rel);
    let mut found = false;
    let mut i: usize = 0;
    while i < pats.len()
        invariant
            0 <= i <= pats.len(),
            dotted_rel@ == dotted(rel@),
            found == exists|j: int|
                0 <= j < i && (pats@[j]@ == dotted(rel@) || pats@[j]@ == rel@ || pats@[j]@
                    == name@),
        decreases pats.len() - i,
    {
        let p = &pats[i];
        if p.eq(&dotted_rel) || p.eq(rel) || p.eq(name) {
            found = true;
        }
        i += 1;
    }
    proof {
        let vs = seq_views(pats@);
        assert forall|j: int| 0 <= j < pats@.len() implies vs[j] == pats@[j]@ by {}
        if found {
            let j = choose|j: int|
                0 <= j < pats@.len() && (pats@[j]@ == dotted(rel@) || pats@[j]@ == rel@ || pats@[j]@
                    == name@);
            assert(vs[j] == pats@[j]@);
        }
        if in_patterns(vs, rel@, name@) {
            if vs.contains(dotted(rel@)) {
                let j = choose|j: int| 0 <= j < vs.len() && vs[j] == dotted(rel@);
                assert(pats@[j]@ == dotted(rel@));
            } else if vs.contains(rel@) {
                let j = choose|j: int| 0 <= j < vs.len() && vs[j] == rel@;
                assert(pats@[j]@ == rel@);
            } else {
                let j = choose|j: int| 0 <= j < vs.len() && vs[j] == name@;
                assert(pats@[j]@ == name@);
            }
        }
    }
    found
}

} // verus!
