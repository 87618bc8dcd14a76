//! Classification and filtering of directory entries.
//!
//! The embedding program enumerates the immediate children of a
//! resolver-approved directory and hands each child over as a [`RawEntry`]:
//! its name, if it is representable as text, and what the metadata probe
//! (made without following symlinks) said of it. [`list_entries`] keeps the
//! regular files and directories and drops everything else — symlinks,
//! entries whose metadata could not be read, entries without a textual name —
//! silently, so that one bad entry never fails a whole listing. A dropped
//! entry is never materialized: [`DirectoryEntry`] has no variant for it.

use vstd::prelude::*;

verus! {

/// The kind tag a listed entry carries.
#[derive(Debug, PartialEq, Eq)]
pub enum EntryKind {
    File,
    Directory,
}

/// One entry of a listing: a base name (never a path) and its kind.
#[derive(Debug, PartialEq, Eq)]
pub struct DirectoryEntry {
    pub name: String,
    pub kind: EntryKind,
}

/// What the metadata probe, made without following symlinks, said of one
/// child of the directory.
#[derive(Debug, PartialEq, Eq)]
pub enum EntryMeta {
    File,
    Directory,
    /// The child is itself a symlink; it is never listed.
    Symlink,
    /// The metadata could not be read; the child is skipped, never an error.
    Unreadable,
}

/// One enumerated child as the embedding program hands it over: the name is
/// `None` where it cannot be represented as valid text.
#[derive(Debug, PartialEq, Eq)]
pub struct RawEntry {
    pub name: Option<String>,
    pub meta: EntryMeta,
}

/// Whether a child is materialized in the listing: it must have a textual
/// name and be a regular file or a directory.
pub open spec fn keeps(e: RawEntry) -> bool {
    match e.name {
        Some(_) => e.meta is File || e.meta is Directory,
        None => false,
    }
}

/// The listed form of a kept child.
pub open spec fn entry_of(e: RawEntry) -> DirectoryEntry
    recommends
        keeps(e),
{
    DirectoryEntry {
        name: e.name.unwrap(),
        kind: if e.meta is File {
            EntryKind::File
        } else {
            EntryKind::Directory
        },
    }
}

/// The listing of a sequence of enumerated children: the kept ones, in
/// enumeration order, each in its listed form.
pub open spec fn listed(s: Seq<RawEntry>) -> Seq<DirectoryEntry>
    decreases s.len(),
{
    if s.len() == 0 {
        Seq::empty()
    } else {
        let rest = listed(s.drop_last());
        if keeps(s.last()) {
            rest.push(entry_of(s.last()))
        } else {
            rest
        }
    }
}

/// Filters the enumerated children of a directory down to its listing.
pub fn list_entries(raw: &Vec<RawEntry>) -> (r: Vec<DirectoryEntry>)
    ensures
        r@ == listed(raw@),
{
    let mut out: Vec<DirectoryEntry> = Vec::new();
    let mut i: usize = 0;
    proof {
        assert(raw@.take(0) =~= Seq::<RawEntry>::empty());
    }
    while i < raw.len()
        invariant
            i <= raw@.len(),
            out@ == listed(raw@.take(i as int)),
        decreases raw@.len() - i,
    {
        let e = &raw[i];
        match (&e.name, &e.meta) {
            (Some(n), EntryMeta::File) => {
                out.push(DirectoryEntry { name: n.clone(), kind: EntryKind::File });
            },
            (Some(n), EntryMeta::Directory) => {
                out.push(DirectoryEntry { name: n.clone(), kind: EntryKind::Directory });
            },
            _ => {},
        }
        proof {
            assert(raw@.take(i + 1).drop_last() =~= raw@.take(i as int));
            assert(raw@.take(i + 1).last() == raw@[i as int]);
        }
        i = i + 1;
    }
    proof {
        assert(raw@.take(raw@.len() as int) =~= raw@);
    }
    out
}

/// Listing omission: a directory holding one regular file, one subdirectory
/// and one symlink lists exactly the file and the directory, in that order of
/// enumeration; the symlink never appears, whatever it points at.
pub proof fn lemma_listing_omission(f: RawEntry, d: RawEntry, l: RawEntry)
    requires
        f.meta is File,
        f.name is Some,
        d.meta is Directory,
        d.name is Some,
        l.meta is Symlink,
    ensures
        listed(seq![f, d, l]) =~= seq![entry_of(f), entry_of(d)],
{
    assert(seq![f, d, l].drop_last() =~= seq![f, d]);
    assert(seq![f, d].drop_last() =~= seq![f]);
    assert(seq![f].drop_last() =~= Seq::<RawEntry>::empty());
    assert(seq![f].last() == f);
    assert(seq![f, d].last() == d);
    assert(seq![f, d, l].last() == l);
    assert(listed(Seq::<RawEntry>::empty()) =~= Seq::<DirectoryEntry>::empty());
    assert(listed(seq![f]) =~= seq![entry_of(f)]);
    assert(listed(seq![f, d]) =~= seq![entry_of(f), entry_of(d)]);
}

/// Symlinks are never listed: every entry of a listing stems from a child
/// that the metadata probe called a regular file or a directory, so nothing
/// a listing shows was a symlink, whatever the directory held.
pub proof fn lemma_no_symlink_listed(s: Seq<RawEntry>)
    ensures
        listed(s).len() <= s.len(),
        forall|k: int|
            0 <= k < listed(s).len() ==> exists|j: int|
                0 <= j < s.len() && keeps(s[j]) && #[trigger] listed(s)[k] == entry_of(s[j]),
    decreases s.len(),
{
    if s.len() > 0 {
        lemma_no_symlink_listed(s.drop_last());
        assert(forall|j: int| 0 <= j < s.len() - 1 ==> s.drop_last()[j] == s[j]);
        let rest = listed(s.drop_last());
        assert forall|k: int| 0 <= k < listed(s).len() implies exists|j: int|
            0 <= j < s.len() && keeps(s[j]) && #[trigger] listed(s)[k] == entry_of(s[j]) by {
            if k < rest.len() {
                let j = choose|j: int|
                    0 <= j < s.drop_last().len() && keeps(s.drop_last()[j]) && rest[k]
                        == entry_of(s.drop_last()[j]);
                assert(0 <= j < s.len() && keeps(s[j]) && listed(s)[k] == entry_of(s[j]));
            } else {
                assert(keeps(s.last()) && listed(s)[k] == entry_of(s[s.len() - 1]));
            }
        }
    }
}

} // verus!
