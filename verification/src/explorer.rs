use vstd::prelude::*;

use crate::BrowseError;
use crate::EntryKind;
use crate::details::FileDetails;
use crate::details::RawDetails;
use crate::details::make_details;
use crate::listing::DirectoryEntry;
use crate::listing::Listing;
use crate::listing::RawEntry;
use crate::listing::build_listing;
use crate::listing::entries_view;
use crate::listing::filter_entries;
use crate::listing::filtered;
use crate::listing::listed;
use crate::listing::raws_view;
use crate::listing::skipped_count;
use crate::nav::NavigationState;
use crate::nav::descended;
use crate::nav::went_back;
use crate::spec_classify;

verus! {

/// What the presentation loop is asked to do after an entry was
/// activated: stay in the window, or hand the path to the OS default
/// handler.
pub enum Action {
    Stay,
    OpenPath(String),
}

/// The browser core that the presentation loop drives: the navigation
/// state and the filter query. The loop hands it user actions and raw
/// filesystem reports; it hands back listings, details and open requests.
pub struct Explorer {
    pub nav: NavigationState,
    pub query: String,
}

impl Explorer {
    /// The starting state: the process working directory on display, no
    /// history, an empty filter.
    pub fn new(start: String) -> (s: Explorer)
        ensures
            s.nav@.current == start@,
            s.nav@.history == Seq::<Seq<char>>::empty(),
            s.query@ == Seq::<char>::empty(),
    {
        Explorer { nav: NavigationState::new(start), query: String::new() }
    }

    /// An entry was clicked: a directory is entered (the navigation state
    /// descends); anything else is handed back as a path for the OS
    /// handler, with the state untouched.
    pub fn on_entry_activated(&mut self, entry: &DirectoryEntry) -> (a: Action)
        ensures
            final(self).query@ == old(self).query@,
            entry.kind == EntryKind::Directory ==> final(self).nav@ == descended(
                old(self).nav@,
                entry.full_path@,
            ) && a is Stay,
            entry.kind != EntryKind::Directory ==> final(self).nav@ == old(self).nav@ && (
            a matches Action::OpenPath(p) && p@ == entry.full_path@),
    {
        if entry.kind == EntryKind::Directory {
            self.nav.descend_into(entry);
            Action::Stay
        } else {
            Action::OpenPath(entry.full_path.clone())
        }
    }

    /// The back button: pops the history into the current directory, or
    /// does nothing when there is no history.
    pub fn on_back_requested(&mut self)
        ensures
            final(self).nav@ == went_back(old(self).nav@),
            final(self).query@ == old(self).query@,
    {
        self.nav.go_back();
    }

    /// The filter field changed: the new query replaces the old one.
    pub fn on_filter_changed(&mut self, query: String)
        ensures
            final(self).query@ == query@,
            final(self).nav@ == old(self).nav@,
    {
        self.query = query;
    }

    /// The listing on display: what the filesystem reported of the
    /// current directory, reduced to the entries the filter keeps. A path
    /// that is not a directory yields an error and, this method taking
    /// the state immutably, leaves the navigation state as it was.
    pub fn current_listing(&self, path_is_dir: bool, raws: &Vec<RawEntry>) -> (r: Result<
        Listing,
        BrowseError,
    >)
        ensures
            !path_is_dir ==> r == Err::<Listing, BrowseError>(BrowseError::NotADirectory),
            path_is_dir ==> (r matches Ok(l) && entries_view(l.entries@) == filtered(
                listed(raws_view(raws@)),
                self.query@,
            ) && l.skipped == skipped_count(raws_view(raws@))),
    {
        match build_listing(path_is_dir, raws) {
            Ok(l) => {
                let entries = filter_entries(&l.entries, self.query.as_str());
                Ok(Listing { entries, skipped: l.skipped })
            },
            Err(e) => Err(e),
        }
    }

    /// The "Show Details" button: builds the details panel's content from
    /// what the filesystem reported of the entry's path.
    pub fn on_details_requested(&self, entry: &DirectoryEntry, meta: Option<RawDetails>) -> (r:
        Result<FileDetails, BrowseError>)
        ensures
            meta is None ==> r == Err::<FileDetails, BrowseError>(BrowseError::DetailsUnavailable),
            meta matches Some(m) ==> (r matches Ok(d) && d.path@ == entry.full_path@ && d.size
                == m.size && d.mode == m.mode && d.created == m.created && d.accessed == m.accessed
                && d.modified == m.modified && d.kind == spec_classify(
                m.is_dir,
                m.is_file,
                m.is_symlink,
            )),
    {
        make_details(entry.full_path.clone(), meta)
    }
}

} // verus!
