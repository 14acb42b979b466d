//! The selection controller: a cursor over the candidate names, moved up and
//! down and committed to a rename request.
use vstd::prelude::*;
use vstd::string::StringExecFns;
use crate::executor::{
    contains, lemma_failure_message_names_both, lemma_success_message_names_both,
    rename_file_in_dir, spec_failure_message, spec_request, spec_success_message, RenameRequest,
    RenameRequestView,
};

verus! {

/// Why a commit could not pick a candidate.
#[derive(PartialEq, Eq, Structural, Clone, Copy, Debug)]
pub enum CommitError {
    /// The cursor was never moved.
    NothingSelected,
    /// The cursor is past the end of the list (the list may be empty).
    NoCandidate,
}

/// The events the interaction reacts to.
#[derive(PartialEq, Eq, Structural, Clone, Copy, Debug)]
pub enum Event {
    MoveUp,
    MoveDown,
    Commit,
    Quit,
    /// Any input that means none of the above.
    Other,
}

/// What follows an event: the interaction goes on, ends without a rename,
/// or ends with a commit's result.
pub enum Action {
    Continue,
    Quit,
    Commit(Result<RenameRequest, CommitError>),
}

/// The selection of a list: the index of the highlighted item, if any.
#[derive(Clone, Copy, Debug, PartialEq, Eq, Structural)]
pub struct SelectionState {
    pub selected: Option<usize>,
}

impl SelectionState {
    /// The highlighted index, `None` where nothing is.
    pub fn selected(&self) -> (r: Option<usize>)
        ensures
            r == self.selected,
    {
        self.selected
    }

    /// Highlights `index`, or nothing.
    pub fn select(&mut self, index: Option<usize>)
        ensures
            final(self).selected == index,
    {
        self.selected = index;
    }
}

impl Default for SelectionState {
    fn default() -> (r: SelectionState)
        ensures
            r.selected == None::<usize>,
    {
        SelectionState { selected: None }
    }
}

impl CommitError {
    pub open spec fn spec_message(&self) -> Seq<char> {
        match self {
            CommitError::NothingSelected => "no candidate is selected: nothing was renamed"@,
            CommitError::NoCandidate => "no candidates available: nothing was renamed"@,
        }
    }

    /// The text to report for a commit that picked nothing.
    pub fn message(&self) -> (r: String)
        ensures
            r@ == self.spec_message(),
    {
        match self {
            CommitError::NothingSelected => {
                proof {
                    reveal_strlit("no candidate is selected: nothing was renamed");
                }
                String::from_str("no candidate is selected: nothing was renamed")
            },
            CommitError::NoCandidate => {
                proof {
                    reveal_strlit("no candidates available: nothing was renamed");
                }
                String::from_str("no candidates available: nothing was renamed")
            },
        }
    }
}

/// The candidate names and the cursor over them. The cursor starts unset;
/// the names do not change after construction.
pub struct App {
    state: SelectionState,
    names: Vec<String>,
}

/// The cursor after a move down: an unset cursor counts as `1`, and the
/// index then grows by one, saturating at `usize::MAX`.
pub open spec fn spec_next(selected: Option<usize>) -> usize {
    let i = match selected {
        Some(i) => i,
        None => 1usize,
    };
    if i == usize::MAX {
        i
    } else {
        (i + 1) as usize
    }
}

/// The cursor after a move up: an unset cursor counts as `1`, and the index
/// then shrinks by one, never below `0`.
pub open spec fn spec_previous(selected: Option<usize>) -> usize {
    let i = match selected {
        Some(i) => i,
        None => 1usize,
    };
    if i == 0 {
        0
    } else {
        (i - 1) as usize
    }
}

/// A commit's result, with the request seen through its view.
pub open spec fn commit_view(r: Result<RenameRequest, CommitError>) -> Result<RenameRequestView, CommitError> {
    match r {
        Ok(q) => Ok(q@),
        Err(e) => Err(e),
    }
}

impl App {
    /// The cursor: `None` while unset.
    pub closed spec fn cursor(&self) -> Option<usize> {
        self.state.selected
    }

    /// The candidate names, in order.
    pub closed spec fn names(&self) -> Seq<Seq<char>> {
        self.names@.map_values(|s: String| s@)
    }

    /// What a commit gives for the file `file_to_rename`: the request for
    /// the candidate under the cursor, or why there is none. An empty list
    /// has no candidate, wherever the cursor is.
    pub open spec fn spec_commit(&self, file_to_rename: Seq<char>) -> Result<RenameRequestView, CommitError> {
        if self.names().len() == 0 {
            Err(CommitError::NoCandidate)
        } else {
            match self.cursor() {
                None => Err(CommitError::NothingSelected),
                Some(i) => if i < self.names().len() {
                    Ok(spec_request(file_to_rename, self.names()[i as int]))
                } else {
                    Err(CommitError::NoCandidate)
                },
            }
        }
    }

    /// The number of candidates fits in a `usize`.
    pub proof fn lemma_names_len_fits(&self)
        ensures
            self.names().len() <= usize::MAX,
    {
        assert(self.names.len() == self.names@.len());
    }

    /// Reacts to one event: a move changes the cursor and the interaction
    /// goes on; a commit leaves the state as it is and ends the interaction
    /// with the commit's result; a quit ends it without a commit; any other
    /// event changes nothing.
    pub fn step(&mut self, event: Event, file_to_rename: &str) -> (r: Action)
        ensures
            final(self).names() == old(self).names(),
            match event {
                Event::MoveDown => final(self).cursor() == Some(spec_next(old(self).cursor()))
                    && r is Continue,
                Event::MoveUp => final(self).cursor() == Some(spec_previous(old(self).cursor()))
                    && r is Continue,
                Event::Commit => final(self).cursor() == old(self).cursor() && (r matches Action::Commit(c)
                    && commit_view(c) == old(self).spec_commit(file_to_rename@)),
                Event::Quit => final(self).cursor() == old(self).cursor() && r is Quit,
                Event::Other => final(self).cursor() == old(self).cursor() && r is Continue,
            },
    {
        match event {
            Event::MoveDown => {
                self.next();
                Action::Continue
            },
            Event::MoveUp => {
                self.previous();
                Action::Continue
            },
            Event::Commit => Action::Commit(self.rename_file(file_to_rename)),
            Event::Quit => Action::Quit,
            Event::Other => Action::Continue,
        }
    }

    /// A controller over `items`, with the cursor unset.
    pub fn with_items(items: Vec<String>) -> (r: App)
        ensures
            r.cursor() == None::<usize>,
            r.names() == items@.map_values(|s: String| s@),
    {
        App { state: SelectionState::default(), names: items }
    }

    /// The cursor, as a selection state.
    pub fn get_state(&self) -> (r: SelectionState)
        ensures
            r.selected == self.cursor(),
    {
        self.state
    }

    /// A copy of the candidate names.
    pub fn get_items(&self) -> (r: Vec<String>)
        ensures
            r@.map_values(|s: String| s@) == self.names(),
    {
        let mut r: Vec<String> = Vec::new();
        let mut i: usize = 0;
        while i < self.names.len()
            invariant
                i <= self.names@.len(),
                r@ == self.names@.subrange(0, i as int),
            decreases self.names@.len() - i,
        {
            r.push(self.names[i].clone());
            assert(r@ =~= self.names@.subrange(0, i as int + 1));
            i = i + 1;
        }
        assert(self.names@.subrange(0, self.names@.len() as int) =~= self.names@);
        r
    }

    /// Moves the cursor down by one.
    pub fn next(&mut self)
        ensures
            final(self).cursor() == Some(spec_next(old(self).cursor())),
            final(self).names() == old(self).names(),
    {
        let i: usize = match self.state.selected() {
            Some(i) => i,
            None => 1,
        };
        let n: usize = if i == usize::MAX {
            i
        } else {
            i + 1
        };
        self.state.select(Some(n));
    }

    /// Moves the cursor up by one.
    pub fn previous(&mut self)
        ensures
            final(self).cursor() == Some(spec_previous(old(self).cursor())),
            final(self).names() == old(self).names(),
    {
        let i: usize = match self.state.selected() {
            Some(i) => i,
            None => 1,
        };
        let n: usize = if i == 0 {
            0
        } else {
            i - 1
        };
        self.state.select(Some(n));
    }

    /// Commits the cursor: the request that renames `file_to_rename` to the
    /// candidate under the cursor, in the file's own directory.
    pub fn rename_file(&self, file_to_rename: &str) -> (r: Result<RenameRequest, CommitError>)
        ensures
            commit_view(r) == self.spec_commit(file_to_rename@),
    {
        if self.names.len() == 0 {
            return Err(CommitError::NoCandidate);
        }
        match self.state.selected() {
            None => Err(CommitError::NothingSelected),
            Some(i) => {
                if i < self.names.len() {
                    Ok(rename_file_in_dir(file_to_rename, self.names[i].as_str()))
                } else {
                    Err(CommitError::NoCandidate)
                }
            },
        }
    }
}

impl Default for App {
    fn default() -> (r: App)
        ensures
            r.cursor() == None::<usize>,
            r.names() == Seq::<Seq<char>>::empty(),
    {
        let r = App { state: SelectionState::default(), names: Vec::new() };
        assert(r.names() =~= Seq::<Seq<char>>::empty());
        r
    }
}

/// A commit with the cursor on a candidate asks to rename the file to that
/// candidate, and every outcome of it, a success or a failure with any
/// error, reports both the file and the candidate.
pub proof fn lemma_commit_names_file_and_choice(app: App, file_to_rename: Seq<char>, i: usize)
    requires
        app.cursor() == Some(i),
        i < app.names().len(),
    ensures
        app.spec_commit(file_to_rename) is Ok,
        app.spec_commit(file_to_rename)->Ok_0.source == file_to_rename,
        app.spec_commit(file_to_rename)->Ok_0.new_name == app.names()[i as int],
        contains(
            spec_success_message(
                app.spec_commit(file_to_rename)->Ok_0.source,
                app.spec_commit(file_to_rename)->Ok_0.new_name,
            ),
            file_to_rename,
        ),
        contains(
            spec_success_message(
                app.spec_commit(file_to_rename)->Ok_0.source,
                app.spec_commit(file_to_rename)->Ok_0.new_name,
            ),
            app.names()[i as int],
        ),
        forall|error: Seq<char>|
            contains(
                #[trigger] spec_failure_message(
                    app.spec_commit(file_to_rename)->Ok_0.source,
                    app.spec_commit(file_to_rename)->Ok_0.new_name,
                    error,
                ),
                file_to_rename,
            ) && contains(
                spec_failure_message(
                    app.spec_commit(file_to_rename)->Ok_0.source,
                    app.spec_commit(file_to_rename)->Ok_0.new_name,
                    error,
                ),
                app.names()[i as int],
            ),
{
    let candidate = app.names()[i as int];
    lemma_success_message_names_both(file_to_rename, candidate);
    assert forall|error: Seq<char>|
        contains(#[trigger] spec_failure_message(file_to_rename, candidate, error), file_to_rename)
            && contains(spec_failure_message(file_to_rename, candidate, error), candidate) by {
        lemma_failure_message_names_both(file_to_rename, candidate, error);
    }
}

} // verus!
