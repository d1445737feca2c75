use vstd::prelude::*;

use crate::EntryKind;
use crate::listing::DirectoryEntry;

verus! {

/// Where the browser stands: the directory on display and the stack of
/// directories that "back" walks through, most recent on top.
pub struct NavigationState {
    pub current_directory: String,
    pub history: Vec<String>,
}

/// Mathematical model of the navigation state.
#[verifier::ext_equal]
pub struct NavModel {
    pub current: Seq<char>,
    pub history: Seq<Seq<char>>,
}

impl View for NavigationState {
    type V = NavModel;

    open spec fn view(&self) -> NavModel {
        NavModel { current: self.current_directory@, history: self.history.deep_view() }
    }
}

/// The state after descending into `target`: the old current directory is
/// pushed onto the history and `target` becomes current.
pub open spec fn descended(v: NavModel, target: Seq<char>) -> NavModel {
    NavModel { current: target, history: v.history.push(v.current) }
}

/// The state after a back request: with a non-empty history the top entry
/// is popped into the current directory; with an empty one nothing moves.
pub open spec fn went_back(v: NavModel) -> NavModel {
    if v.history.len() == 0 {
        v
    } else {
        NavModel { current: v.history.last(), history: v.history.drop_last() }
    }
}

/// Descending into a directory and then going back lands on the starting
/// state: the same current directory and the same history.
pub proof fn lemma_descend_then_back(v: NavModel, target: Seq<char>)
    ensures
        went_back(descended(v, target)) == v,
{
    assert(descended(v, target).history.drop_last() =~= v.history);
    assert(went_back(descended(v, target)) =~~= v);
}

/// A back request with an empty history changes nothing.
pub proof fn lemma_back_on_empty(v: NavModel)
    requires
        v.history.len() == 0,
    ensures
        went_back(v) == v,
{
}

impl NavigationState {
    /// The starting state: `start` on display, nothing to go back to.
    pub fn new(start: String) -> (s: NavigationState)
        ensures
            s@.current == start@,
            s@.history == Seq::<Seq<char>>::empty(),
    {
        let s = NavigationState { current_directory: start, history: Vec::new() };
        proof {
            assert(s@.history =~= Seq::<Seq<char>>::empty());
        }
        s
    }

    /// Enters a directory entry: the directory on display goes onto the
    /// history and the entry's path takes its place.
    pub fn descend_into(&mut self, entry: &DirectoryEntry)
        requires
            entry.kind == EntryKind::Directory,
        ensures
            final(self)@ == descended(old(self)@, entry.full_path@),
    {
        let prev = self.current_directory.clone();
        self.history.push(prev);
        self.current_directory = entry.full_path.clone();
        proof {
            assert(self@.history =~= old(self)@.history.push(old(self)@.current));
            assert(self@ =~~= descended(old(self)@, entry.full_path@));
        }
    }

    /// Returns to the most recently left directory; with an empty history
    /// this is a no-op.
    pub fn go_back(&mut self)
        ensures
            final(self)@ == went_back(old(self)@),
            old(self)@.history.len() == 0 ==> final(self)@ == old(self)@,
    {
        match self.history.pop() {
            Some(d) => {
                self.current_directory = d;
                proof {
                    assert(self@.history =~= old(self)@.history.drop_last());
                    assert(self@ =~~= went_back(old(self)@));
                }
            },
            None => {
                proof {
                    assert(self@ =~~= old(self)@);
                }
            },
        }
    }
}

} // verus!
