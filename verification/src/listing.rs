use vstd::prelude::*;

use vstd::string::StringExecFns;

use crate::filter::spec_matches;
use crate::format::dec_string;
use crate::format::format_size;
use crate::BrowseError;
use crate::EntryKind;
use crate::spec_classify;
use crate::classify;

verus! {

/// What the filesystem reports of one entry before the library has looked
/// at it: the entry's name (absent when it is not valid Unicode), its full
/// path, and its metadata (absent when the metadata fetch failed).
pub struct RawEntry {
    pub name: Option<String>,
    pub full_path: String,
    pub meta: Option<RawMeta>,
}

/// The metadata bits the listing reads: the type flags and the
/// modification time in seconds since the Unix epoch (absent when the
/// platform cannot supply it).
#[derive(Clone, Copy, PartialEq, Eq, Structural, Debug)]
pub struct RawMeta {
    pub is_dir: bool,
    pub is_file: bool,
    pub is_symlink: bool,
    pub modified: Option<i64>,
}

/// Mathematical model of a raw entry.
pub struct RawModel {
    pub name: Option<Seq<char>>,
    pub full_path: Seq<char>,
    pub meta: Option<RawMeta>,
}

impl View for RawEntry {
    type V = RawModel;

    open spec fn view(&self) -> RawModel {
        RawModel {
            name: match self.name {
                Some(n) => Some(n@),
                None => None,
            },
            full_path: self.full_path@,
            meta: self.meta,
        }
    }
}

/// One item of a directory listing.
#[derive(Debug)]
pub struct DirectoryEntry {
    pub name: String,
    pub full_path: String,
    pub kind: EntryKind,
    pub modified_time: Option<i64>,
}

/// Mathematical model of a directory entry.
pub struct EntryModel {
    pub name: Seq<char>,
    pub full_path: Seq<char>,
    pub kind: EntryKind,
    pub modified_time: Option<i64>,
}

impl View for DirectoryEntry {
    type V = EntryModel;

    open spec fn view(&self) -> EntryModel {
        EntryModel {
            name: self.name@,
            full_path: self.full_path@,
            kind: self.kind,
            modified_time: self.modified_time,
        }
    }
}

impl DirectoryEntry {
    /// A copy that models identically to the original.
    pub fn duplicate(&self) -> (r: DirectoryEntry)
        ensures
            r@ == self@,
    {
        DirectoryEntry {
            name: self.name.clone(),
            full_path: self.full_path.clone(),
            kind: self.kind,
            modified_time: self.modified_time,
        }
    }
}

/// A raw entry enters the listing only when its name is valid Unicode and
/// its metadata could be read.
pub open spec fn raw_readable(r: RawModel) -> bool {
    r.name is Some && r.meta is Some
}

/// The listing entry a readable raw entry turns into.
pub open spec fn entry_of(r: RawModel) -> EntryModel
    recommends
        raw_readable(r),
{
    EntryModel {
        name: r.name->0,
        full_path: r.full_path,
        kind: spec_classify(r.meta->0.is_dir, r.meta->0.is_file, r.meta->0.is_symlink),
        modified_time: r.meta->0.modified,
    }
}

/// The entries a listing holds: the readable raw entries, in filesystem
/// order, each classified from its metadata; unreadable ones are skipped.
pub open spec fn listed(raws: Seq<RawModel>) -> Seq<EntryModel>
    decreases raws.len(),
{
    if raws.len() == 0 {
        Seq::empty()
    } else if raw_readable(raws.last()) {
        listed(raws.drop_last()).push(entry_of(raws.last()))
    } else {
        listed(raws.drop_last())
    }
}

/// How many raw entries a listing skips as unreadable.
pub open spec fn skipped_count(raws: Seq<RawModel>) -> nat
    decreases raws.len(),
{
    if raws.len() == 0 {
        0
    } else if raw_readable(raws.last()) {
        skipped_count(raws.drop_last())
    } else {
        skipped_count(raws.drop_last()) + 1
    }
}

/// The models of a sequence of listing entries.
pub open spec fn entries_view(v: Seq<DirectoryEntry>) -> Seq<EntryModel> {
    v.map_values(|e: DirectoryEntry| e@)
}

/// The models of a sequence of raw entries.
pub open spec fn raws_view(v: Seq<RawEntry>) -> Seq<RawModel> {
    v.map_values(|w: RawEntry| w@)
}

/// A directory listing: the entries kept, and how many raw entries were
/// skipped because their metadata could not be read.
#[derive(Debug)]
pub struct Listing {
    pub entries: Vec<DirectoryEntry>,
    pub skipped: usize,
}

/// Builds the listing of a path from what the filesystem reported:
/// refuses a path that is not a directory, keeps every readable entry in
/// the order given, and counts the skipped ones.
pub fn build_listing(path_is_dir: bool, raws: &Vec<RawEntry>) -> (r: Result<Listing, BrowseError>)
    ensures
        !path_is_dir ==> r == Err::<Listing, BrowseError>(BrowseError::NotADirectory),
        path_is_dir ==> (r matches Ok(l) && entries_view(l.entries@) == listed(raws_view(raws@))
            && l.skipped == skipped_count(raws_view(raws@))),
{
    if !path_is_dir {
        return Err(BrowseError::NotADirectory);
    }
    let mut entries: Vec<DirectoryEntry> = Vec::new();
    let mut skipped: usize = 0;
    let mut idx: usize = 0;
    while idx < raws.len()
        invariant
            idx <= raws@.len(),
            skipped <= idx,
            entries_view(entries@) == listed(raws_view(raws@).take(idx as int)),
            skipped == skipped_count(raws_view(raws@).take(idx as int)),
        decreases raws@.len() - idx,
    {
        proof {
            assert(raws_view(raws@).take(idx + 1).drop_last() =~= raws_view(raws@).take(
                idx as int,
            ));
            assert(raws_view(raws@).take(idx + 1).last() == raws@[idx as int]@);
        }
        let raw = &raws[idx];
        match (&raw.name, &raw.meta) {
            (Some(name), Some(m)) => {
                let e = DirectoryEntry {
                    name: name.clone(),
                    full_path: raw.full_path.clone(),
                    kind: classify(m.is_dir, m.is_file, m.is_symlink),
                    modified_time: m.modified,
                };
                proof {
                    assert(e@ == entry_of(raws@[idx as int]@));
                    assert(entries_view(entries@.push(e)) =~= entries_view(entries@).push(e@));
                }
                entries.push(e);
            },
            _ => {
                skipped = skipped + 1;
            },
        }
        idx = idx + 1;
    }
    proof {
        assert(raws_view(raws@).take(raws@.len() as int) =~= raws_view(raws@));
    }
    Ok(Listing { entries, skipped })
}

/// A listing omits nothing: every raw entry either appears in it or is
/// counted among the skipped ones.
pub proof fn lemma_no_omissions(raws: Seq<RawModel>)
    ensures
        listed(raws).len() + skipped_count(raws) == raws.len(),
    decreases raws.len(),
{
    if raws.len() > 0 {
        lemma_no_omissions(raws.drop_last());
    }
}

/// The entries of a listing that a query keeps, in their listing order.
pub open spec fn filtered(entries: Seq<EntryModel>, q: Seq<char>) -> Seq<EntryModel>
    decreases entries.len(),
{
    if entries.len() == 0 {
        Seq::empty()
    } else if spec_matches(entries.last().name, q) {
        filtered(entries.drop_last(), q).push(entries.last())
    } else {
        filtered(entries.drop_last(), q)
    }
}

/// The filter keeps exactly the matching entries: an entry is in the
/// filtered listing if and only if it is in the listing and its name
/// matches the query.
pub proof fn lemma_filtered_membership(entries: Seq<EntryModel>, q: Seq<char>, e: EntryModel)
    ensures
        filtered(entries, q).contains(e) <==> entries.contains(e) && spec_matches(e.name, q),
    decreases entries.len(),
{
    if entries.len() > 0 {
        lemma_filtered_membership(entries.drop_last(), q, e);
        assert(entries.contains(e) <==> entries.drop_last().contains(e) || entries.last() == e) by {
            if entries.contains(e) {
                let i = choose|i: int| 0 <= i < entries.len() && entries[i] == e;
                if i < entries.len() - 1 {
                    assert(entries.drop_last()[i] == e);
                }
            }
            if entries.drop_last().contains(e) {
                let i = choose|i: int|
                    0 <= i < entries.drop_last().len() && entries.drop_last()[i] == e;
                assert(entries[i] == e);
            }
        }
        if spec_matches(entries.last().name, q) {
            let f = filtered(entries.drop_last(), q);
            assert(f.push(entries.last()).contains(e) <==> f.contains(e) || entries.last() == e)
                by {
                if f.push(entries.last()).contains(e) {
                    let i = choose|i: int|
                        0 <= i < f.push(entries.last()).len() && f.push(entries.last())[i] == e;
                    if i < f.len() {
                        assert(f[i] == e);
                    }
                }
                if f.contains(e) {
                    let i = choose|i: int| 0 <= i < f.len() && f[i] == e;
                    assert(f.push(entries.last())[i] == e);
                }
                assert(f.push(entries.last()).last() == entries.last());
            }
        }
    }
}

/// Keeps exactly the entries whose names the query matches.
pub fn filter_entries(entries: &Vec<DirectoryEntry>, query: &str) -> (r: Vec<DirectoryEntry>)
    ensures
        entries_view(r@) == filtered(entries_view(entries@), query@),
{
    let mut kept: Vec<DirectoryEntry> = Vec::new();
    let mut idx: usize = 0;
    while idx < entries.len()
        invariant
            idx <= entries@.len(),
            entries_view(kept@) == filtered(entries_view(entries@).take(idx as int), query@),
        decreases entries@.len() - idx,
    {
        proof {
            assert(entries_view(entries@).take(idx + 1).drop_last() =~= entries_view(
                entries@,
            ).take(idx as int));
            assert(entries_view(entries@).take(idx + 1).last() == entries@[idx as int]@);
        }
        let e = &entries[idx];
        if crate::filter::matches(e, query) {
            let copy = e.duplicate();
            proof {
                assert(entries_view(kept@.push(copy)) =~= entries_view(kept@).push(copy@));
            }
            kept.push(copy);
        }
        idx = idx + 1;
    }
    proof {
        assert(entries_view(entries@).take(entries@.len() as int) =~= entries_view(entries@));
    }
    kept
}

/// One line of a textual listing: the entry's position, a separator, and
/// its name.
pub open spec fn numbered_line(i: nat, name: Seq<char>) -> Seq<char> {
    dec_string(i) + ": "@ + name
}

/// Renders a listing as numbered lines, one per entry, in listing order.
pub fn list_lines(entries: &Vec<DirectoryEntry>) -> (r: Vec<String>)
    ensures
        r@.len() == entries@.len(),
        forall|i: int|
            0 <= i < r@.len() ==> r@[i]@ == numbered_line(i as nat, entries@[i].name@),
{
    proof {
        reveal_strlit(": ");
    }
    let mut lines: Vec<String> = Vec::new();
    let mut idx: usize = 0;
    while idx < entries.len()
        invariant
            idx <= entries@.len(),
            lines@.len() == idx,
            forall|i: int|
                0 <= i < idx ==> lines@[i]@ == numbered_line(i as nat, entries@[i].name@),
        decreases entries@.len() - idx,
    {
        let mut line = format_size(idx as u64);
        line.append(": ");
        line.append(entries[idx].name.as_str());
        proof {
            assert(line@ =~= numbered_line(idx as nat, entries@[idx as int].name@));
        }
        lines.push(line);
        idx = idx + 1;
    }
    lines
}

} // verus!
