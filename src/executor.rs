//! Turning a chosen name into a sibling rename, and its outcome into a
//! message.
//!
//! The move itself is the host's: a caller asks `begin_rename` whether to
//! move, performs the move, and hands its result to `finish_rename`.
use vstd::prelude::*;
use vstd::string::{StrSliceExecFns, StringExecFns};

verus! {

/// The parent directory of a path, as `std::path::Path::parent` gives it,
/// with the empty path where there is none.
pub uninterp spec fn parent_of(path: Seq<char>) -> Seq<char>;

/// Relies on `std::path::Path::parent`: the path without its final
/// component (`None`, for a root or the empty path, becomes the empty path).
#[verifier::external_body]
fn parent_dir(path: &str) -> (r: String)
    ensures
        r@ == parent_of(path@),
{
    std::path::Path::new(path).parent().and_then(|p| p.to_str()).unwrap_or_default().to_string()
}

/// The path of `new_name` in the directory `parent`: the name alone where
/// the parent is empty, the two side by side where the parent already ends
/// with `/` (the root), else the two joined by `/`.
pub open spec fn spec_destination(parent: Seq<char>, new_name: Seq<char>) -> Seq<char> {
    if parent.len() == 0 {
        new_name
    } else if parent.last() == '/' {
        parent + new_name
    } else {
        parent + seq!['/'] + new_name
    }
}

/// The confirmation's text before the original name (in yellow).
pub open spec fn success_prefix() -> Seq<char> {
    "\x1b[1;33mSuccessfully renamed \x1b[0m"@
}

/// The confirmation's text between the two names (in yellow).
pub open spec fn success_infix() -> Seq<char> {
    "\x1b[1;33m to \x1b[0m"@
}

/// A failure report's text before the original name (in red).
pub open spec fn failure_prefix() -> Seq<char> {
    "\x1b[1;31mCould not rename "@
}

/// A failure report's text between the two names.
pub open spec fn failure_infix() -> Seq<char> {
    " to "@
}

/// A failure report's text between the new name and the error.
pub open spec fn failure_error_text() -> Seq<char> {
    " with error: "@
}

/// A failure report's closing text (colour reset).
pub open spec fn failure_suffix() -> Seq<char> {
    "\x1b[0m"@
}

/// The error text for a destination that is already taken, before its path.
pub open spec fn exists_text() -> Seq<char> {
    "destination already exists: "@
}

/// The confirmation that names the renamed file and its new name.
pub open spec fn spec_success_message(original: Seq<char>, new_name: Seq<char>) -> Seq<char> {
    success_prefix() + original + success_infix() + new_name
}

/// The report of a failed rename: it names the file and the new name, and
/// carries the error text.
pub open spec fn spec_failure_message(original: Seq<char>, new_name: Seq<char>, error: Seq<char>) -> Seq<char> {
    failure_prefix() + original + failure_infix() + new_name + failure_error_text() + error + failure_suffix()
}

/// Whether `part` occurs in `s` as a contiguous run.
pub open spec fn contains(s: Seq<char>, part: Seq<char>) -> bool {
    exists|k: int| 0 <= k && k + part.len() <= s.len() && #[trigger] s.subrange(k, k + part.len()) == part
}

/// A move from `source` to `destination`, a sibling path that ends in
/// `new_name`.
pub struct RenameRequest {
    pub source: String,
    pub destination: String,
    pub new_name: String,
}

/// A rename request seen as the text of its three paths.
pub struct RenameRequestView {
    pub source: Seq<char>,
    pub destination: Seq<char>,
    pub new_name: Seq<char>,
}

impl View for RenameRequest {
    type V = RenameRequestView;

    open spec fn view(&self) -> RenameRequestView {
        RenameRequestView { source: self.source@, destination: self.destination@, new_name: self.new_name@ }
    }
}

/// The request that renames `file_to_rename` to `new_name` in its own
/// directory.
pub open spec fn spec_request(file_to_rename: Seq<char>, new_name: Seq<char>) -> RenameRequestView {
    RenameRequestView {
        source: file_to_rename,
        destination: spec_destination(parent_of(file_to_rename), new_name),
        new_name,
    }
}

/// What a rename came to, with the message to show for it.
pub enum RenameOutcome {
    Renamed(String),
    Failed(String),
}

impl RenameOutcome {
    pub open spec fn spec_message(&self) -> Seq<char> {
        match self {
            RenameOutcome::Renamed(m) => m@,
            RenameOutcome::Failed(m) => m@,
        }
    }

    pub open spec fn spec_is_success(&self) -> bool {
        self is Renamed
    }

    pub fn message(&self) -> (r: String)
        ensures
            r@ == self.spec_message(),
    {
        match self {
            RenameOutcome::Renamed(m) => m.clone(),
            RenameOutcome::Failed(m) => m.clone(),
        }
    }

    pub fn is_success(&self) -> (r: bool)
        ensures
            r == self.spec_is_success(),
    {
        match self {
            RenameOutcome::Renamed(_) => true,
            RenameOutcome::Failed(_) => false,
        }
    }
}

/// What to do next for a request: perform the move, or report an outcome
/// without touching the file.
pub enum RenameStep {
    Move(RenameRequest),
    Done(RenameOutcome),
}

/// The path of `new_file_name` beside the entries of `parent`.
pub fn destination_in(parent: &str, new_file_name: &str) -> (r: String)
    ensures
        r@ == spec_destination(parent@, new_file_name@),
{
    let n = parent.unicode_len();
    if n == 0 {
        String::from_str(new_file_name)
    } else if parent.get_char(n - 1) == '/' {
        String::from_str(parent).concat(new_file_name)
    } else {
        let r = String::from_str(parent);
        let r = r.concat("/");
        proof {
            reveal_strlit("/");
        }
        r.concat(new_file_name)
    }
}

/// Builds the request that renames `file_to_rename` to `new_file_name`,
/// keeping it in the same parent directory.
pub fn rename_file_in_dir(file_to_rename: &str, new_file_name: &str) -> (r: RenameRequest)
    ensures
        r@ == spec_request(file_to_rename@, new_file_name@),
{
    let parent = parent_dir(file_to_rename);
    let destination = destination_in(parent.as_str(), new_file_name);
    RenameRequest {
        source: String::from_str(file_to_rename),
        destination,
        new_name: String::from_str(new_file_name),
    }
}

/// The confirmation message for a completed rename.
pub fn success_message(original: &str, new_name: &str) -> (r: String)
    ensures
        r@ == spec_success_message(original@, new_name@),
{
    proof {
        reveal_strlit("\x1b[1;33mSuccessfully renamed \x1b[0m");
        reveal_strlit("\x1b[1;33m to \x1b[0m");
    }
    let r = String::from_str("\x1b[1;33mSuccessfully renamed \x1b[0m");
    let r = r.concat(original);
    let r = r.concat("\x1b[1;33m to \x1b[0m");
    r.concat(new_name)
}

/// The report of a rename of `original` to `new_name` that failed with
/// `error`.
pub fn failure_message(original: &str, new_name: &str, error: &str) -> (r: String)
    ensures
        r@ == spec_failure_message(original@, new_name@, error@),
{
    proof {
        reveal_strlit("\x1b[1;31mCould not rename ");
        reveal_strlit(" to ");
        reveal_strlit(" with error: ");
        reveal_strlit("\x1b[0m");
    }
    let r = String::from_str("\x1b[1;31mCould not rename ");
    let r = r.concat(original);
    let r = r.concat(" to ");
    let r = r.concat(new_name);
    let r = r.concat(" with error: ");
    let r = r.concat(error);
    r.concat("\x1b[0m")
}

/// Decides whether a request may proceed: where the destination already
/// exists the rename is refused with a failure outcome, and the file is left
/// as it is; otherwise the move is to be performed.
pub fn begin_rename(request: RenameRequest, destination_exists: bool) -> (r: RenameStep)
    ensures
        destination_exists ==> (r matches RenameStep::Done(RenameOutcome::Failed(m)) && m@
            == spec_failure_message(
            request.source@,
            request.new_name@,
            exists_text() + request.destination@,
        )),
        !destination_exists ==> (r matches RenameStep::Move(q) && q@ == request@),
{
    if destination_exists {
        proof {
            reveal_strlit("destination already exists: ");
        }
        let text = String::from_str("destination already exists: ");
        let text = text.concat(request.destination.as_str());
        RenameStep::Done(
            RenameOutcome::Failed(
                failure_message(request.source.as_str(), request.new_name.as_str(), text.as_str()),
            ),
        )
    } else {
        RenameStep::Move(request)
    }
}

/// The outcome of a performed move: a confirmation naming the original and
/// the new name where it succeeded, the error text where it failed.
pub fn finish_rename(request: &RenameRequest, moved: Result<(), String>) -> (r: RenameOutcome)
    ensures
        moved is Ok ==> r is Renamed && r.spec_message() == spec_success_message(
            request.source@,
            request.new_name@,
        ),
        moved is Err ==> r is Failed && r.spec_message() == spec_failure_message(
            request.source@,
            request.new_name@,
            moved->Err_0@,
        ),
{
    match moved {
        Ok(()) => RenameOutcome::Renamed(success_message(request.source.as_str(), request.new_name.as_str())),
        Err(e) => RenameOutcome::Failed(
            failure_message(request.source.as_str(), request.new_name.as_str(), e.as_str()),
        ),
    }
}

/// A successful rename's message names both the file that was renamed and
/// its new name.
pub proof fn lemma_success_message_names_both(original: Seq<char>, new_name: Seq<char>)
    ensures
        contains(spec_success_message(original, new_name), original),
        contains(spec_success_message(original, new_name), new_name),
{
    let m = spec_success_message(original, new_name);
    let a: int = success_prefix().len() as int;
    let b: int = a + original.len() + success_infix().len();
    assert(m.subrange(a, a + original.len()) =~= original);
    assert(m.subrange(b, b + new_name.len()) =~= new_name);
}

/// A failed rename's report names both the file that was to be renamed and
/// the new name, whatever the error.
pub proof fn lemma_failure_message_names_both(original: Seq<char>, new_name: Seq<char>, error: Seq<char>)
    ensures
        contains(spec_failure_message(original, new_name, error), original),
        contains(spec_failure_message(original, new_name, error), new_name),
{
    let m = spec_failure_message(original, new_name, error);
    let a: int = failure_prefix().len() as int;
    let b: int = a + original.len() + failure_infix().len();
    assert(m.subrange(a, a + original.len()) =~= original);
    assert(m.subrange(b, b + new_name.len()) =~= new_name);
}

} // verus!
