//! Metadata enrichment: finding an ISBN in an item's title and path, the lookup run that
//! asks each configured provider in turn (ISBN first, then title and author, each tried a
//! bounded number of times with a pause between tries), the diagnostics and status the run
//! ends with, and how an accepted proposal is merged into the stored metadata.
use crate::metadata::{LibraryItemMetadata, UpdateLibraryItemMetadataInput, copy_opt_string, copy_strings};
use crate::json::{parse_string_list_or_empty, string_list_or_empty};
use crate::text::{all_digits, chars_of, is_ascii_digit, is_digit, join, join_strings, string_from_chars, to_ascii_upper, upper};
use vstd::prelude::*;
use vstd::string::*;

verus! {

/// The fields a provider proposes for an item. (The score a provider attaches to its
/// proposal travels beside these fields; nothing here decides on it.)
#[derive(Debug)]
pub struct CandidateFields {
    pub title: Option<String>,
    pub authors: Vec<String>,
    pub language: Option<String>,
    pub published_at: Option<String>,
}

pub struct EnrichLibraryItemMetadataInput {
    pub item_id: i64,
}

pub struct ListMetadataEnrichmentProposalsInput {
    pub item_id: i64,
}

pub struct ApplyMetadataEnrichmentProposalInput {
    pub proposal_id: i64,
}

#[derive(Debug)]
pub struct ApplyMetadataEnrichmentProposalResult {
    pub proposal_id: i64,
    pub item: LibraryItemMetadata,
}

/// A stored proposal as the apply step reads it; `authors` holds a JSON list of strings.
pub struct ProposalApplyRow {
    pub id: i64,
    pub library_item_id: i64,
    pub title: Option<String>,
    pub authors: String,
    pub language: Option<String>,
    pub published_at: Option<String>,
    pub applied_at: Option<String>,
}

// ---------------------------------------------------------------------------------------
// ISBN hints
// ---------------------------------------------------------------------------------------
/// A character that an ISBN keeps: a digit or an `X` check character.
pub open spec fn isbn_char(c: char) -> bool {
    is_ascii_digit(c) || c == 'X' || c == 'x'
}

/// Thirteen digits, or nine digits followed by a digit or an `X`.
pub open spec fn isbn_shaped(n: Seq<char>) -> bool {
    ||| n.len() == 13 && all_digits(n)
    ||| n.len() == 10 && (forall|i: int| 0 <= i < 9 ==> is_ascii_digit(#[trigger] n[i])) && isbn_char(
        n[9],
    )
}

/// The first ISBN in `s`. Tokens are maximal runs of digits, `X`, `x` and hyphens; a token
/// counts once its hyphens are dropped and it is ISBN-shaped. `pending` holds the kept
/// characters of the token read so far.
pub open spec fn first_isbn_from(s: Seq<char>, pending: Seq<char>) -> Option<Seq<char>>
    decreases s.len(),
{
    if s.len() == 0 {
        if isbn_shaped(pending) {
            Some(upper(pending))
        } else {
            None
        }
    } else if isbn_char(s[0]) {
        first_isbn_from(s.drop_first(), pending.push(s[0]))
    } else if s[0] == '-' {
        first_isbn_from(s.drop_first(), pending)
    } else if isbn_shaped(pending) {
        Some(upper(pending))
    } else {
        first_isbn_from(s.drop_first(), Seq::empty())
    }
}

/// The first ISBN found in `text`, upper-cased.
pub open spec fn isbn_in(text: Seq<char>) -> Option<Seq<char>> {
    first_isbn_from(text, Seq::empty())
}

fn is_isbn_char(c: char) -> (r: bool)
    ensures
        r == isbn_char(c),
{
    is_digit(c) || c == 'X' || c == 'x'
}

fn is_isbn_shaped(n: &Vec<char>) -> (r: bool)
    ensures
        r == isbn_shaped(n@),
{
    if n.len() == 13 {
        let mut i: usize = 0;
        while i < 13
            invariant
                n@.len() == 13,
                i <= 13,
                forall|k: int| 0 <= k < i ==> is_ascii_digit(#[trigger] n@[k]),
            decreases 13 - i,
        {
            if !is_digit(n[i]) {
                return false;
            }
            i += 1;
        }
        true
    } else if n.len() == 10 {
        let mut i: usize = 0;
        while i < 9
            invariant
                n@.len() == 10,
                i <= 9,
                forall|k: int| 0 <= k < i ==> is_ascii_digit(#[trigger] n@[k]),
            decreases 9 - i,
        {
            if !is_digit(n[i]) {
                return false;
            }
            i += 1;
        }
        is_isbn_char(n[9])
    } else {
        false
    }
}

fn upper_text(n: &Vec<char>) -> (r: String)
    ensures
        r@ == upper(n@),
{
    let s = string_from_chars(n.as_slice());
    to_ascii_upper(s.as_str())
}

/// The first ISBN-10 or ISBN-13 in `text`, hyphens dropped and the check character upper-cased.
pub fn extract_isbn(text: &str) -> (r: Option<String>)
    ensures
        r.deep_view() == isbn_in(text@),
{
    let cs = chars_of(text);
    let mut pending: Vec<char> = Vec::new();
    let mut i: usize = 0;
    assert(cs@.skip(0) =~= cs@);
    assert(pending@ =~= Seq::<char>::empty());
    while i < cs.len()
        invariant
            i <= cs@.len(),
            cs@ == text@,
            isbn_in(text@) == first_isbn_from(cs@.skip(i as int), pending@),
        decreases cs@.len() - i,
    {
        let c = cs[i];
        let ghost rest = cs@.skip(i as int);
        assert(rest.drop_first() =~= cs@.skip(i as int + 1));
        assert(rest[0] == c);
        if is_isbn_char(c) {
            pending.push(c);
        } else if c != '-' {
            if is_isbn_shaped(&pending) {
                return Some(upper_text(&pending));
            }
            pending = Vec::new();
            assert(pending@ =~= Seq::<char>::empty());
        }
        i += 1;
    }
    assert(cs@.skip(cs@.len() as int) =~= Seq::<char>::empty());
    if is_isbn_shaped(&pending) {
        Some(upper_text(&pending))
    } else {
        None
    }
}

/// What an extracted ISBN looks like: ISBN-shaped, made of ISBN characters, and already
/// upper-case.
pub open spec fn clean_isbn(r: Seq<char>) -> bool {
    &&& isbn_shaped(r)
    &&& forall|i: int| 0 <= i < r.len() ==> isbn_char(#[trigger] r[i])
    &&& upper(r) == r
}

proof fn lemma_upper_of_shaped(p: Seq<char>)
    requires
        isbn_shaped(p),
    ensures
        clean_isbn(upper(p)),
{
    let u = upper(p);
    assert forall|i: int| 0 <= i < p.len() implies isbn_char(#[trigger] p[i]) by {
        if p.len() == 10 && i < 9 {
        }
    }
    assert forall|i: int| 0 <= i < u.len() implies isbn_char(#[trigger] u[i]) && (is_ascii_digit(
        p[i],
    ) ==> u[i] == p[i]) by {
        assert(isbn_char(p[i]));
    }
    assert(upper(u) =~= u);
}

proof fn lemma_found_is_clean(s: Seq<char>, pending: Seq<char>)
    ensures
        first_isbn_from(s, pending) matches Some(r) ==> clean_isbn(r),
    decreases s.len(),
{
    if s.len() == 0 {
        if isbn_shaped(pending) {
            lemma_upper_of_shaped(pending);
        }
    } else if isbn_char(s[0]) {
        lemma_found_is_clean(s.drop_first(), pending.push(s[0]));
    } else if s[0] == '-' {
        lemma_found_is_clean(s.drop_first(), pending);
    } else if isbn_shaped(pending) {
        lemma_upper_of_shaped(pending);
    } else {
        lemma_found_is_clean(s.drop_first(), Seq::empty());
    }
}

proof fn lemma_scan_isbn_chars(s: Seq<char>, pending: Seq<char>)
    requires
        forall|i: int| 0 <= i < s.len() ==> isbn_char(#[trigger] s[i]),
    ensures
        first_isbn_from(s, pending) == if isbn_shaped(pending + s) {
            Some(upper(pending + s))
        } else {
            None
        },
    decreases s.len(),
{
    if s.len() == 0 {
        assert(pending + s =~= pending);
    } else {
        assert(isbn_char(s[0]));
        assert forall|i: int| 0 <= i < s.drop_first().len() implies isbn_char(
            #[trigger] s.drop_first()[i],
        ) by {
            assert(s.drop_first()[i] == s[i + 1]);
        }
        lemma_scan_isbn_chars(s.drop_first(), pending.push(s[0]));
        assert(pending.push(s[0]) + s.drop_first() =~= pending + s);
    }
}

/// An extracted ISBN, searched for again, is found unchanged.
pub proof fn lemma_isbn_extraction_stable(text: Seq<char>)
    ensures
        isbn_in(text) matches Some(r) ==> isbn_in(r) == Some(r),
{
    lemma_found_is_clean(text, Seq::empty());
    if let Some(r) = isbn_in(text) {
        lemma_scan_isbn_chars(r, Seq::empty());
        assert(Seq::<char>::empty() + r =~= r);
    }
}

/// The ISBN hint of an item: the first ISBN in its title followed by its source path.
pub fn isbn_hint(title: &str, source_path: &str) -> (r: Option<String>)
    ensures
        r.deep_view() == isbn_in(title@ + " "@ + source_path@),
{
    let mut text = String::from_str(title);
    text.append(" ");
    text.append(source_path);
    extract_isbn(text.as_str())
}

// ---------------------------------------------------------------------------------------
// Pauses between tries
// ---------------------------------------------------------------------------------------
/// How many times one kind of lookup is tried against one provider.
pub const LOOKUP_ATTEMPTS: u8 = 3;

/// The pause, in milliseconds, after failed try number `attempt` (counted from 0): 100 ms for
/// each try made, plus a jitter of `subsec_millis % 50` taken from the sub-second
/// milliseconds of the clock.
pub fn backoff_duration_with_jitter(attempt: u8, subsec_millis: u32) -> (ms: u64)
    requires
        attempt < 255,
    ensures
        ms == 100 * (attempt + 1) + subsec_millis % 50,
{
    100 * (attempt as u64 + 1) + (subsec_millis % 50) as u64
}

// ---------------------------------------------------------------------------------------
// The lookup run
// ---------------------------------------------------------------------------------------
#[derive(PartialEq, Eq, Structural, Clone, Copy, Debug)]
pub enum LookupKind {
    Isbn,
    TitleAuthor,
}

#[derive(PartialEq, Eq, Structural, Clone, Copy, Debug)]
pub enum RunStatus {
    Success,
    Degraded,
    Failed,
}

impl RunStatus {
    pub open spec fn label(self) -> Seq<char> {
        match self {
            RunStatus::Success => "success"@,
            RunStatus::Degraded => "degraded"@,
            RunStatus::Failed => "failed"@,
        }
    }

    pub fn as_str(self) -> (r: &'static str)
        ensures
            r@ == self.label(),
    {
        match self {
            RunStatus::Success => "success",
            RunStatus::Degraded => "degraded",
            RunStatus::Failed => "failed",
        }
    }
}

/// What the caller does next.
#[derive(Debug)]
pub enum EnrichmentAction {
    /// Ask provider `provider` for a lookup of `kind`; when `backoff_attempt` is set, first
    /// pause for `backoff_duration_with_jitter` of that attempt.
    Lookup { provider: usize, kind: LookupKind, backoff_attempt: Option<u8> },
    /// Store `candidate` as the proposal of provider `provider`, with `proposal_diagnostic`,
    /// and close the run with `status` and `diagnostic`.
    Propose {
        provider: usize,
        candidate: CandidateFields,
        proposal_diagnostic: Option<String>,
        status: RunStatus,
        diagnostic: Option<String>,
    },
    /// Close the run as failed, with `diagnostic`.
    Fail { diagnostic: String },
}

/// The state of one enrichment run over the configured providers, in order.
pub struct EnrichmentRun {
    pub provider_names: Vec<String>,
    pub isbn: Option<String>,
    /// The provider being asked.
    pub provider: usize,
    /// The kind of lookup being tried.
    pub kind: LookupKind,
    /// The failed tries of the current lookup.
    pub attempt: u8,
    /// The error of the most recent failed try of the current lookup.
    pub last_error: Option<String>,
    /// What went wrong so far with the current provider.
    pub notes: Vec<String>,
    /// One line for each provider that finished with something to report.
    pub diagnostics: Vec<String>,
    pub finished: bool,
}

/// An upper bound on the lookups a run in progress may still ask for: the tries left of the
/// current provider (three for each kind of lookup still ahead) and six for each provider
/// after it.
pub open spec fn lookups_left(run: EnrichmentRun) -> int {
    let later = (run.provider_names@.len() - run.provider - 1) * (2 * LOOKUP_ATTEMPTS);
    let current = match run.kind {
        LookupKind::Isbn => 2 * LOOKUP_ATTEMPTS - run.attempt,
        LookupKind::TitleAuthor => LOOKUP_ATTEMPTS - run.attempt,
    };
    later + current
}

/// The note left when a lookup ends after failures.
pub open spec fn failure_note(kind: LookupKind, error: Seq<char>) -> Seq<char> {
    match kind {
        LookupKind::Isbn => "isbn lookup failed: "@ + error,
        LookupKind::TitleAuthor => "title/author lookup failed: "@ + error,
    }
}

/// The report line of a provider: its name, then its notes separated by ` | `.
pub open spec fn provider_line(name: Seq<char>, notes: Seq<Seq<char>>) -> Seq<char> {
    name + ": "@ + join(notes, " | "@)
}

/// A provider's lookup starts with ISBN when there is an ISBN hint.
pub open spec fn first_kind(isbn: Option<String>) -> LookupKind {
    if isbn is Some {
        LookupKind::Isbn
    } else {
        LookupKind::TitleAuthor
    }
}

pub open spec fn degraded_note() -> Seq<char> {
    "Primary provider degraded; fallback provider proposal used."@
}

pub open spec fn no_proposal_note() -> Seq<char> {
    "No enrichment proposal available from configured providers."@
}

/// A proposal is marked degraded when it does not come from the first provider, or when
/// anything went wrong before it was found.
pub open spec fn proposal_note(provider: nat, diagnostics: Seq<Seq<char>>) -> Option<Seq<char>> {
    if provider > 0 || diagnostics.len() > 0 {
        Some(degraded_note())
    } else {
        None
    }
}

pub open spec fn status_of(diagnostics: Seq<Seq<char>>) -> RunStatus {
    if diagnostics.len() == 0 {
        RunStatus::Success
    } else {
        RunStatus::Degraded
    }
}

pub open spec fn run_diagnostic(diagnostics: Seq<Seq<char>>) -> Option<Seq<char>> {
    if diagnostics.len() == 0 {
        None
    } else {
        Some(join(diagnostics, " | "@))
    }
}

pub open spec fn failed_diagnostic(diagnostics: Seq<Seq<char>>) -> Seq<char> {
    if diagnostics.len() == 0 {
        no_proposal_note()
    } else {
        join(diagnostics, " | "@)
    }
}

/// Whether a failed try is followed by another one.
pub open spec fn retries(run: EnrichmentRun, reply: Result<Option<CandidateFields>, String>) -> bool {
    reply is Err && run.attempt + 1 < LOOKUP_ATTEMPTS
}

/// The candidate a reply brings, if any.
pub open spec fn reply_candidate(reply: Result<Option<CandidateFields>, String>) -> Option<
    CandidateFields,
> {
    match reply {
        Ok(c) => c,
        Err(_) => None,
    }
}

/// The last failure of the lookup that a reply ends.
pub open spec fn last_failure(run: EnrichmentRun, reply: Result<Option<CandidateFields>, String>) -> Option<
    Seq<char>,
> {
    match reply {
        Ok(_) => run.last_error.deep_view(),
        Err(e) => Some(e@),
    }
}

/// The provider's notes once the lookup that a reply ends is over.
pub open spec fn notes_after(run: EnrichmentRun, reply: Result<Option<CandidateFields>, String>) -> Seq<
    Seq<char>,
> {
    match last_failure(run, reply) {
        Some(e) => run.notes.deep_view().push(failure_note(run.kind, e)),
        None => run.notes.deep_view(),
    }
}

/// The run's diagnostics once the current provider is done, after the lookup a reply ends.
pub open spec fn diagnostics_after(
    run: EnrichmentRun,
    reply: Result<Option<CandidateFields>, String>,
) -> Seq<Seq<char>> {
    let notes = notes_after(run, reply);
    if notes.len() == 0 {
        run.diagnostics.deep_view()
    } else {
        run.diagnostics.deep_view().push(
            provider_line(run.provider_names.deep_view()[run.provider as int], notes),
        )
    }
}

fn failure_note_text(kind: LookupKind, error: &str) -> (r: String)
    ensures
        r@ == failure_note(kind, error@),
{
    let mut note = match kind {
        LookupKind::Isbn => String::from_str("isbn lookup failed: "),
        LookupKind::TitleAuthor => String::from_str("title/author lookup failed: "),
    };
    note.append(error);
    note
}

fn provider_line_text(name: &str, notes: &Vec<String>) -> (r: String)
    ensures
        r@ == provider_line(name@, notes.deep_view()),
{
    let mut line = String::from_str(name);
    line.append(": ");
    let joined = join_strings(notes, " | ");
    line.append(joined.as_str());
    line
}

impl EnrichmentRun {
    /// A run in progress asks an existing provider and has tries left; an ISBN lookup
    /// needs an ISBN.
    pub open spec fn wf(&self) -> bool {
        !self.finished ==> {
            &&& self.provider < self.provider_names@.len()
            &&& self.attempt < LOOKUP_ATTEMPTS
            &&& (self.attempt == 0) == (self.last_error is None)
            &&& (self.kind == LookupKind::Isbn ==> self.isbn is Some)
        }
    }

    /// Opens a run over `provider_names` with an optional ISBN hint, and says what to do
    /// first: ask the first provider, or fail at once when there is none.
    pub fn start(provider_names: Vec<String>, isbn: Option<String>) -> (r: (
        EnrichmentRun,
        EnrichmentAction,
    ))
        ensures
            r.0.wf(),
            r.0.provider_names == provider_names,
            r.0.isbn == isbn,
            r.0.provider == 0,
            r.0.attempt == 0,
            r.0.notes@.len() == 0,
            r.0.diagnostics@.len() == 0,
            !r.0.finished ==> 0 < lookups_left(r.0) <= 2 * LOOKUP_ATTEMPTS * provider_names@.len(),
            provider_names@.len() == 0 ==> r.0.finished && (r.1 matches EnrichmentAction::Fail {
                diagnostic,
            } && diagnostic@ == no_proposal_note()),
            provider_names@.len() > 0 ==> !r.0.finished && r.0.kind == first_kind(isbn) && (
            r.1 matches EnrichmentAction::Lookup { provider, kind, backoff_attempt } && provider
                == 0 && kind == first_kind(isbn) && backoff_attempt is None),
    {
        let kind = if isbn.is_some() {
            LookupKind::Isbn
        } else {
            LookupKind::TitleAuthor
        };
        let empty = provider_names.len() == 0;
        let run = EnrichmentRun {
            provider_names,
            isbn,
            provider: 0,
            kind,
            attempt: 0,
            last_error: None,
            notes: Vec::new(),
            diagnostics: Vec::new(),
            finished: empty,
        };
        if empty {
            (run, EnrichmentAction::Fail { diagnostic: String::from_str("No enrichment proposal available from configured providers.") })
        } else {
            proof {
                let n = run.provider_names@.len() as int;
                assert((n - 0 - 1) * (2 * LOOKUP_ATTEMPTS) + 2 * LOOKUP_ATTEMPTS <= 2 * LOOKUP_ATTEMPTS * n)
                    by (nonlinear_arith)
                    requires
                        n >= 1,
                ;
            }
            (run, EnrichmentAction::Lookup { provider: 0, kind, backoff_attempt: None })
        }
    }

    /// Takes the reply to the last lookup and says what to do next.
    ///
    /// A failure is tried again, after a pause, until `LOOKUP_ATTEMPTS` tries have failed.
    /// A lookup that ends with a candidate closes the run with a proposal. An ISBN lookup
    /// that ends without one hands over to a title and author lookup of the same provider;
    /// a title and author lookup that ends without one moves on to the next provider, or
    /// closes the run as failed after the last one. Each ended lookup that had failures
    /// leaves a note; each provider that is done with notes leaves one diagnostic line.
    pub fn on_reply(&mut self, reply: Result<Option<CandidateFields>, String>) -> (action:
        EnrichmentAction)
        requires
            old(self).wf(),
            !old(self).finished,
        ensures
            final(self).wf(),
            final(self).provider_names == old(self).provider_names,
            final(self).isbn == old(self).isbn,
            !final(self).finished ==> 0 < lookups_left(*final(self)) < lookups_left(*old(self)),
            retries(*old(self), reply) ==> {
                &&& !final(self).finished
                &&& final(self).provider == old(self).provider
                &&& final(self).kind == old(self).kind
                &&& final(self).attempt == old(self).attempt + 1
                &&& final(self).last_error.deep_view() == last_failure(*old(self), reply)
                &&& final(self).notes.deep_view() == old(self).notes.deep_view()
                &&& final(self).diagnostics.deep_view() == old(self).diagnostics.deep_view()
                &&& action matches EnrichmentAction::Lookup { provider, kind, backoff_attempt }
                &&& provider == old(self).provider
                &&& kind == old(self).kind
                &&& backoff_attempt == Some(old(self).attempt)
            },
            !retries(*old(self), reply) && reply_candidate(reply) is Some ==> {
                let d = diagnostics_after(*old(self), reply);
                &&& final(self).finished
                &&& final(self).diagnostics.deep_view() == d
                &&& action matches EnrichmentAction::Propose {
                    provider,
                    candidate,
                    proposal_diagnostic,
                    status,
                    diagnostic,
                }
                &&& provider == old(self).provider
                &&& reply_candidate(reply) == Some(candidate)
                &&& proposal_diagnostic.deep_view() == proposal_note(old(self).provider as nat, d)
                &&& status == status_of(d)
                &&& diagnostic.deep_view() == run_diagnostic(d)
            },
            !retries(*old(self), reply) && reply_candidate(reply) is None && old(self).kind
                == LookupKind::Isbn ==> {
                &&& !final(self).finished
                &&& final(self).provider == old(self).provider
                &&& final(self).kind == LookupKind::TitleAuthor
                &&& final(self).attempt == 0
                &&& final(self).notes.deep_view() == notes_after(*old(self), reply)
                &&& final(self).diagnostics.deep_view() == old(self).diagnostics.deep_view()
                &&& action matches EnrichmentAction::Lookup { provider, kind, backoff_attempt }
                &&& provider == old(self).provider
                &&& kind == LookupKind::TitleAuthor
                &&& backoff_attempt is None
            },
            !retries(*old(self), reply) && reply_candidate(reply) is None && old(self).kind
                == LookupKind::TitleAuthor && old(self).provider + 1 < old(
                self,
            ).provider_names@.len() ==> {
                &&& !final(self).finished
                &&& final(self).provider == old(self).provider + 1
                &&& final(self).kind == first_kind(old(self).isbn)
                &&& final(self).attempt == 0
                &&& final(self).notes@.len() == 0
                &&& final(self).diagnostics.deep_view() == diagnostics_after(*old(self), reply)
                &&& action matches EnrichmentAction::Lookup { provider, kind, backoff_attempt }
                &&& provider == old(self).provider + 1
                &&& kind == first_kind(old(self).isbn)
                &&& backoff_attempt is None
            },
            !retries(*old(self), reply) && reply_candidate(reply) is None && old(self).kind
                == LookupKind::TitleAuthor && old(self).provider + 1 == old(
                self,
            ).provider_names@.len() ==> {
                let d = diagnostics_after(*old(self), reply);
                &&& final(self).finished
                &&& final(self).diagnostics.deep_view() == d
                &&& action matches EnrichmentAction::Fail { diagnostic }
                &&& diagnostic@ == failed_diagnostic(d)
            },
    {
        let ghost before = *self;
        let candidate = match reply {
            Err(error) => {
                if self.attempt + 1 < LOOKUP_ATTEMPTS {
                    let attempt = self.attempt;
                    self.attempt = attempt + 1;
                    self.last_error = Some(error);
                    return EnrichmentAction::Lookup {
                        provider: self.provider,
                        kind: self.kind,
                        backoff_attempt: Some(attempt),
                    };
                }
                self.last_error = Some(error);
                None
            },
            Ok(c) => c,
        };
        assert(self.last_error.deep_view() == last_failure(before, reply));
        let ghost notes0 = self.notes.deep_view();
        if let Some(error) = &self.last_error {
            let note = failure_note_text(self.kind, error.as_str());
            self.notes.push(note);
            assert(self.notes.deep_view() =~= notes0.push(failure_note(before.kind, error@)));
        }
        assert(self.notes.deep_view() == notes_after(before, reply));
        self.attempt = 0;
        self.last_error = None;
        if candidate.is_none() && self.kind == LookupKind::Isbn {
            self.kind = LookupKind::TitleAuthor;
            return EnrichmentAction::Lookup {
                provider: self.provider,
                kind: LookupKind::TitleAuthor,
                backoff_attempt: None,
            };
        }
        // The provider is done.

        let ghost diags0 = self.diagnostics.deep_view();
        if self.notes.len() > 0 {
            let line = provider_line_text(self.provider_names[self.provider].as_str(), &self.notes);
            self.diagnostics.push(line);
            assert(self.diagnostics.deep_view() =~= diags0.push(
                provider_line(before.provider_names.deep_view()[before.provider as int], notes_after(before, reply)),
            ));
        }
        self.notes = Vec::new();
        assert(self.diagnostics.deep_view() == diagnostics_after(before, reply));
        match candidate {
            Some(c) => {
                self.finished = true;
                let clean = self.diagnostics.len() == 0;
                let proposal_diagnostic = if self.provider > 0 || !clean {
                    Some(String::from_str("Primary provider degraded; fallback provider proposal used."))
                } else {
                    None
                };
                let status = if clean {
                    RunStatus::Success
                } else {
                    RunStatus::Degraded
                };
                let diagnostic = if clean {
                    None
                } else {
                    Some(join_strings(&self.diagnostics, " | "))
                };
                EnrichmentAction::Propose {
                    provider: self.provider,
                    candidate: c,
                    proposal_diagnostic,
                    status,
                    diagnostic,
                }
            },
            None => {
                let count = self.provider_names.len();
                if self.provider < count - 1 {
                    self.provider = self.provider + 1;
                    self.kind = if self.isbn.is_some() {
                        LookupKind::Isbn
                    } else {
                        LookupKind::TitleAuthor
                    };
                    EnrichmentAction::Lookup {
                        provider: self.provider,
                        kind: self.kind,
                        backoff_attempt: None,
                    }
                } else {
                    self.finished = true;
                    let diagnostic = if self.diagnostics.len() == 0 {
                        String::from_str("No enrichment proposal available from configured providers.")
                    } else {
                        join_strings(&self.diagnostics, " | ")
                    };
                    EnrichmentAction::Fail { diagnostic }
                }
            },
        }
    }
}

// ---------------------------------------------------------------------------------------
// Applying a proposal
// ---------------------------------------------------------------------------------------
/// A proposal is applied once.
pub fn require_unapplied(row: &ProposalApplyRow) -> (r: Result<(), String>)
    ensures
        r is Ok <==> row.applied_at is None,
        r matches Err(e) ==> e@ == "Metadata enrichment proposal already applied."@,
{
    if row.applied_at.is_some() {
        Err(String::from_str("Metadata enrichment proposal already applied."))
    } else {
        Ok(())
    }
}

/// The fields of an item after a proposal is merged in: each field the proposal has replaces
/// the stored one, a proposed author list only when it is not empty.
pub open spec fn merged_title(proposed: Option<Seq<char>>, current: Seq<char>) -> Seq<char> {
    match proposed {
        Some(t) => t,
        None => current,
    }
}

pub open spec fn merged_authors(proposed: Seq<Seq<char>>, current: Seq<Seq<char>>) -> Seq<Seq<char>> {
    if proposed.len() == 0 {
        current
    } else {
        proposed
    }
}

pub open spec fn merged_option(proposed: Option<Seq<char>>, current: Option<Seq<char>>) -> Option<
    Seq<char>,
> {
    match proposed {
        Some(v) => Some(v),
        None => current,
    }
}

/// The metadata update that applying `row` to the item `current` asks for; tags and
/// collections are left as they are.
pub fn merged_update(current: &LibraryItemMetadata, row: &ProposalApplyRow) -> (u:
    UpdateLibraryItemMetadataInput)
    ensures
        u.item_id == row.library_item_id,
        u.title@ == merged_title(row.title.deep_view(), current.title@),
        u.authors.deep_view() == merged_authors(
            string_list_or_empty(row.authors@),
            current.authors.deep_view(),
        ),
        u.language.deep_view() == merged_option(row.language.deep_view(), current.language.deep_view()),
        u.published_at.deep_view() == merged_option(
            row.published_at.deep_view(),
            current.published_at.deep_view(),
        ),
        u.tags is None,
        u.collections is None,
        row.title matches Some(t) ==> u.title@ == t@,
        row.title is None ==> u.title@ == current.title@,
        row.language matches Some(l) ==> u.language.deep_view() == Some(l@),
        row.published_at matches Some(p) ==> u.published_at.deep_view() == Some(p@),
        string_list_or_empty(row.authors@).len() > 0 ==> u.authors.deep_view()
            == string_list_or_empty(row.authors@),
{
    proof {
        lemma_proposed_values_win(
            row.title.deep_view(),
            current.title@,
            string_list_or_empty(row.authors@),
            current.authors.deep_view(),
            row.language.deep_view(),
            current.language.deep_view(),
            row.published_at.deep_view(),
            current.published_at.deep_view(),
        );
    }
    let proposed_authors = parse_string_list_or_empty(row.authors.as_str());
    let title = match &row.title {
        Some(t) => t.clone(),
        None => current.title.clone(),
    };
    let authors = if proposed_authors.len() == 0 {
        copy_strings(&current.authors)
    } else {
        proposed_authors
    };
    let language = match &row.language {
        Some(l) => Some(l.clone()),
        None => copy_opt_string(&current.language),
    };
    let published_at = match &row.published_at {
        Some(p) => Some(p.clone()),
        None => copy_opt_string(&current.published_at),
    };
    UpdateLibraryItemMetadataInput {
        item_id: row.library_item_id,
        title,
        authors,
        language,
        published_at,
        tags: None,
        collections: None,
    }
}

/// Every value a proposal carries wins over the stored one, whatever the stored value is:
/// a proposed title, language or date replaces the current one, and so does a proposed
/// author list that is not empty; a field the proposal leaves out keeps its current value.
pub proof fn lemma_proposed_values_win(
    proposed_title: Option<Seq<char>>,
    current_title: Seq<char>,
    proposed_authors: Seq<Seq<char>>,
    current_authors: Seq<Seq<char>>,
    proposed_language: Option<Seq<char>>,
    current_language: Option<Seq<char>>,
    proposed_published_at: Option<Seq<char>>,
    current_published_at: Option<Seq<char>>,
)
    ensures
        proposed_title matches Some(t) ==> merged_title(proposed_title, current_title) == t,
        proposed_title is None ==> merged_title(proposed_title, current_title) == current_title,
        proposed_authors.len() > 0 ==> merged_authors(proposed_authors, current_authors)
            == proposed_authors,
        proposed_authors.len() == 0 ==> merged_authors(proposed_authors, current_authors)
            == current_authors,
        proposed_language is Some ==> merged_option(proposed_language, current_language)
            == proposed_language,
        proposed_language is None ==> merged_option(proposed_language, current_language)
            == current_language,
        proposed_published_at is Some ==> merged_option(proposed_published_at, current_published_at)
            == proposed_published_at,
        proposed_published_at is None ==> merged_option(proposed_published_at, current_published_at)
            == current_published_at,
{
}

/// Merging a proposal that proposes nothing leaves every field as it was.
pub proof fn lemma_empty_proposal_changes_nothing(
    current_title: Seq<char>,
    current_authors: Seq<Seq<char>>,
    current_language: Option<Seq<char>>,
    current_published_at: Option<Seq<char>>,
)
    ensures
        merged_title(None, current_title) == current_title,
        merged_authors(Seq::empty(), current_authors) == current_authors,
        merged_option(None, current_language) == current_language,
        merged_option(None, current_published_at) == current_published_at,
{
}

/// Merging is idempotent: merging the same proposal into an already merged item changes
/// nothing more.
pub proof fn lemma_merge_idempotent(
    proposed_title: Option<Seq<char>>,
    proposed_authors: Seq<Seq<char>>,
    proposed_language: Option<Seq<char>>,
    current_title: Seq<char>,
    current_authors: Seq<Seq<char>>,
    current_language: Option<Seq<char>>,
)
    ensures
        merged_title(proposed_title, merged_title(proposed_title, current_title)) == merged_title(
            proposed_title,
            current_title,
        ),
        merged_authors(proposed_authors, merged_authors(proposed_authors, current_authors))
            == merged_authors(proposed_authors, current_authors),
        merged_option(proposed_language, merged_option(proposed_language, current_language))
            == merged_option(proposed_language, current_language),
{
}

} // verus!
