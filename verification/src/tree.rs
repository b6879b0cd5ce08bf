//! The in-memory model of a directory subtree.

use vstd::prelude::*;

verus! {

/// One directory entry: a file, or a subdirectory with its own contents.
pub enum Entry {
    File { name: String },
    Dir { name: String, folder: Folder },
}

/// A directory's contents: its entries in enumeration order and, if the
/// directory holds a `.gitignore` file, that file's lines.
pub struct Folder {
    pub entries: Vec<Entry>,
    pub gitignore: Option<Vec<String>>,
}

impl Entry {
    /// The entry's file name.
    pub open spec fn name(self) -> Seq<char> {
        match self {
            Entry::File { name } => name@,
            Entry::Dir { name, .. } => name@,
        }
    }

    /// Whether the entry is a directory.
    pub open spec fn is_dir(self) -> bool {
        self is Dir
    }

    /// The subdirectory's contents; meaningful only for directories.
    pub open spec fn folder(self) -> Folder {
        match self {
            Entry::Dir { folder, .. } => folder,
            Entry::File { .. } => arbitrary(),
        }
    }

    /// Nesting depth below this entry.
    pub open spec fn height(self) -> nat
        decreases self,
    {
        match self {
            Entry::File { .. } => 0,
            Entry::Dir { folder, .. } => 1 + entries_height(folder.entries@),
        }
    }
}

impl Folder {
    /// Nesting depth below this folder.
    pub open spec fn height(self) -> nat {
        entries_height(self.entries@)
    }
}

/// Combined nesting depth of a sequence of entries.
pub open spec fn entries_height(s: Seq<Entry>) -> nat
    decreases s,
{
    if s.len() == 0 {
        0
    } else {
        entries_height(s.drop_last()) + s.last().height()
    }
}

pub proof fn lemma_entries_height_add(a: Seq<Entry>, b: Seq<Entry>)
    ensures
        entries_height(a + b) == entries_height(a) + entries_height(b),
    decreases b.len(),
{
    if b.len() == 0 {
        assert(a + b =~= a);
    } else {
        lemma_entries_height_add(a, b.drop_last());
        assert((a + b).drop_last() =~= a + b.drop_last());
        assert((a + b).last() == b.last());
    }
}

pub proof fn lemma_entries_height_singleton(e: Entry)
    ensures
        entries_height(seq![e]) == e.height(),
{
    assert(seq![e].drop_last() =~= Seq::<Entry>::empty());
    assert(entries_height(Seq::<Entry>::empty()) == 0);
    assert(seq![e].last() == e);
}

pub proof fn lemma_entry_height_le(s: Seq<Entry>, i: int)
    requires
        0 <= i < s.len(),
    ensures
        s[i].height() <= entries_height(s),
    decreases s.len(),
{
    if i < s.len() - 1 {
        lemma_entry_height_le(s.drop_last(), i);
    }
}

pub proof fn lemma_entries_height_filter(s: Seq<Entry>, p: spec_fn(Entry) -> bool)
    ensures
        entries_height(s.filter(p)) <= entries_height(s),
    decreases s.len(),
{
    reveal(Seq::filter);
    if s.len() != 0 {
        lemma_entries_height_filter(s.drop_last(), p);
        if p(s.last()) {
            assert(s.filter(p) == s.drop_last().filter(p).push(s.last()));
            assert(s.drop_last().filter(p).push(s.last()) =~= s.drop_last().filter(p) + seq![
                s.last(),
            ]);
            lemma_entries_height_add(s.drop_last().filter(p), seq![s.last()]);
            lemma_entries_height_singleton(s.last());
        }
    }
}

/// The directory entries of a listing, in listing order.
pub open spec fn dirs_of(s: Seq<Entry>) -> Seq<Entry> {
    s.filter(|e: Entry| e.is_dir())
}

/// The file entries of a listing, in listing order.
pub open spec fn files_of(s: Seq<Entry>) -> Seq<Entry> {
    s.filter(|e: Entry| !e.is_dir())
}

pub proof fn lemma_dirs_files_height(s: Seq<Entry>)
    ensures
        entries_height(dirs_of(s)) + entries_height(files_of(s)) == entries_height(s),
    decreases s.len(),
{
    reveal(Seq::filter);
    if s.len() != 0 {
        lemma_dirs_files_height(s.drop_last());
        let grown = if s.last().is_dir() {
            dirs_of(s.drop_last())
        } else {
            files_of(s.drop_last())
        };
        assert(grown.push(s.last()) =~= grown + seq![s.last()]);
        lemma_entries_height_add(grown, seq![s.last()]);
        lemma_entries_height_singleton(s.last());
    }
}

} // verus!
