//! The library an installation manages: checking a create request, the order of its steps
//! (one library per installation, checked before anything is created on disk), and the
//! messages each refusal gives.
use crate::text::{chars_of, trim, trim_str};
use vstd::prelude::*;
use vstd::string::*;

verus! {

#[derive(Debug, Clone, PartialEq, Eq)]
pub struct Library {
    pub id: i64,
    pub name: String,
    pub path: String,
    pub created_at: String,
}

pub struct CreateLibraryInput {
    pub name: String,
    pub path: String,
}

pub open spec fn name_required() -> Seq<char> {
    "Library name is required."@
}

pub open spec fn path_required() -> Seq<char> {
    "Library path is required."@
}

pub open spec fn already_configured() -> Seq<char> {
    "A library is already configured for this installation."@
}

pub open spec fn location_unavailable() -> Seq<char> {
    "Unable to prepare the selected library location."@
}

pub open spec fn save_failed() -> Seq<char> {
    "Unable to save library configuration."@
}

/// A create request needs a name and a path that are not blank; both are trimmed.
pub open spec fn create_input_result(name: Seq<char>, path: Seq<char>) -> Result<
    (Seq<char>, Seq<char>),
    Seq<char>,
> {
    if trim(name).len() == 0 {
        Err(name_required())
    } else if trim(path).len() == 0 {
        Err(path_required())
    } else {
        Ok((trim(name), trim(path)))
    }
}

pub fn normalize_create_input(input: CreateLibraryInput) -> (r: Result<(String, String), String>)
    ensures
        match r {
            Ok((n, p)) => create_input_result(input.name@, input.path@) == Ok::<
                (Seq<char>, Seq<char>),
                Seq<char>,
            >((n@, p@)),
            Err(e) => create_input_result(input.name@, input.path@) == Err::<
                (Seq<char>, Seq<char>),
                Seq<char>,
            >(e@),
        },
{
    let name = trim_str(input.name.as_str());
    if name.unicode_len() == 0 {
        return Err(String::from_str("Library name is required."));
    }
    let path = trim_str(input.path.as_str());
    if path.unicode_len() == 0 {
        return Err(String::from_str("Library path is required."));
    }
    Ok((String::from_str(name), String::from_str(path)))
}

/// The next step of a create request.
#[derive(Debug)]
pub enum CreateLibraryAction {
    /// Look up whether a library is configured already.
    CheckExisting,
    /// Create the directory at `path`.
    PrepareDirectory { path: String },
    /// Resolve `path` to an absolute path and store the library under `name`.
    Store { name: String, path: String },
    /// Refuse the request with `message`.
    Reject { message: String },
}

#[derive(PartialEq, Eq, Structural, Clone, Copy, Debug)]
pub enum CreateStage {
    Checking,
    Preparing,
    Storing,
    Closed,
}

/// A create request in progress.
pub struct CreateLibraryFlow {
    pub name: String,
    pub path: String,
    pub stage: CreateStage,
}

impl CreateLibraryFlow {
    /// Checks the request; a valid one goes on to look for an existing library.
    pub fn start(input: CreateLibraryInput) -> (r: (CreateLibraryFlow, CreateLibraryAction))
        ensures
            match create_input_result(input.name@, input.path@) {
                Ok((n, p)) => {
                    &&& r.0.stage == CreateStage::Checking
                    &&& r.0.name@ == n
                    &&& r.0.path@ == p
                    &&& r.1 is CheckExisting
                },
                Err(e) => {
                    &&& r.0.stage == CreateStage::Closed
                    &&& r.1 matches CreateLibraryAction::Reject { message }
                    &&& message@ == e
                },
            },
    {
        match normalize_create_input(input) {
            Ok((name, path)) => (
                CreateLibraryFlow { name, path, stage: CreateStage::Checking },
                CreateLibraryAction::CheckExisting,
            ),
            Err(message) => (
                CreateLibraryFlow {
                    name: String::new(),
                    path: String::new(),
                    stage: CreateStage::Closed,
                },
                CreateLibraryAction::Reject { message },
            ),
        }
    }

    /// One library per installation: when one exists the request is refused before
    /// anything is created on disk; otherwise the directory is prepared next.
    pub fn on_existing_checked(&mut self, library_exists: bool) -> (action: CreateLibraryAction)
        requires
            old(self).stage == CreateStage::Checking,
        ensures
            final(self).name == old(self).name,
            final(self).path == old(self).path,
            library_exists ==> final(self).stage == CreateStage::Closed && (
            action matches CreateLibraryAction::Reject { message } && message@
                == already_configured()),
            !library_exists ==> final(self).stage == CreateStage::Preparing && (
            action matches CreateLibraryAction::PrepareDirectory { path } && path
                == old(self).path),
    {
        if library_exists {
            self.stage = CreateStage::Closed;
            CreateLibraryAction::Reject {
                message: String::from_str("A library is already configured for this installation."),
            }
        } else {
            self.stage = CreateStage::Preparing;
            CreateLibraryAction::PrepareDirectory { path: self.path.clone() }
        }
    }

    /// A directory that could not be prepared refuses the request with a message that
    /// hides the underlying error; otherwise the library is stored next.
    pub fn on_directory_prepared(&mut self, prepared: bool) -> (action: CreateLibraryAction)
        requires
            old(self).stage == CreateStage::Preparing,
        ensures
            final(self).name == old(self).name,
            final(self).path == old(self).path,
            !prepared ==> final(self).stage == CreateStage::Closed && (
            action matches CreateLibraryAction::Reject { message } && message@
                == location_unavailable()),
            prepared ==> final(self).stage == CreateStage::Storing && (
            action matches CreateLibraryAction::Store { name, path } && name == old(self).name
                && path == old(self).path),
    {
        if prepared {
            self.stage = CreateStage::Storing;
            CreateLibraryAction::Store { name: self.name.clone(), path: self.path.clone() }
        } else {
            self.stage = CreateStage::Closed;
            CreateLibraryAction::Reject {
                message: String::from_str("Unable to prepare the selected library location."),
            }
        }
    }
}

/// Whether `pattern` occurs in `text`.
pub open spec fn contains_text(text: Seq<char>, pattern: Seq<char>) -> bool {
    exists|i: int|
        0 <= i && i + pattern.len() <= text.len() && #[trigger] text.subrange(i, i + pattern.len())
            == pattern
}

fn occurs_at(text: &Vec<char>, pattern: &Vec<char>, at: usize) -> (r: bool)
    requires
        at + pattern@.len() <= text@.len(),
        text@.len() <= usize::MAX,
    ensures
        r == (text@.subrange(at as int, at + pattern@.len()) == pattern@),
{
    let mut k: usize = 0;
    while k < pattern.len()
        invariant
            k <= pattern@.len(),
            at + pattern@.len() <= text@.len(),
            text@.len() <= usize::MAX,
            forall|j: int| 0 <= j < k ==> text@[at + j] == pattern@[j],
        decreases pattern@.len() - k,
    {
        if text[at + k] != pattern[k] {
            assert(text@.subrange(at as int, at + pattern@.len())[k as int] != pattern@[k as int]);
            return false;
        }
        k += 1;
    }
    assert(text@.subrange(at as int, at + pattern@.len()) =~= pattern@);
    true
}

pub fn contains_str(text: &str, pattern: &str) -> (r: bool)
    ensures
        r == contains_text(text@, pattern@),
{
    let t = chars_of(text);
    let p = chars_of(pattern);
    if p.len() > t.len() {
        return false;
    }
    let last = t.len() - p.len();
    let mut i: usize = 0;
    loop
        invariant
            t@ == text@,
            p@ == pattern@,
            t@.len() == t.len(),
            last == t@.len() - p@.len(),
            p@.len() <= t@.len(),
            i <= last,
            forall|j: int| 0 <= j < i ==> #[trigger] t@.subrange(j, j + p@.len()) != p@,
        decreases last - i,
    {
        if occurs_at(&t, &p, i) {
            return true;
        }
        if i == last {
            assert forall|j: int|
                0 <= j && j + pattern@.len() <= text@.len() implies #[trigger] text@.subrange(
                j,
                j + pattern@.len(),
            ) != pattern@ by {
                assert(j <= last);
            }
            return false;
        }
        i += 1;
    }
}

/// A database error is a uniqueness violation when SQLite reports code 2067 or 1555, or
/// its message says a UNIQUE constraint failed.
pub open spec fn unique_violation(code: Option<Seq<char>>, message: Seq<char>) -> bool {
    code == Some("2067"@) || code == Some("1555"@) || contains_text(
        message,
        "UNIQUE constraint failed"@,
    )
}

pub fn is_unique_constraint_error(code: Option<&str>, message: &str) -> (r: bool)
    ensures
        r == unique_violation(
            match code {
                Some(c) => Some(c@),
                None => None,
            },
            message@,
        ),
{
    let coded = match code {
        Some(c) => crate::text::str_eq(c, "2067") || crate::text::str_eq(c, "1555"),
        None => false,
    };
    coded || contains_str(message, "UNIQUE constraint failed")
}

/// The message of a failed store: a uniqueness violation means another library was
/// configured meanwhile; anything else is reported without its details.
pub fn store_failure_message(unique_violation_seen: bool) -> (m: String)
    ensures
        m@ == if unique_violation_seen {
            already_configured()
        } else {
            save_failed()
        },
{
    if unique_violation_seen {
        String::from_str("A library is already configured for this installation.")
    } else {
        String::from_str("Unable to save library configuration.")
    }
}

} // verus!
