//! The decisions that drive the scan of one url.
//!
//! A scan alternates work done elsewhere (requests, heuristics, progress
//! bars, statistics) with decisions. The decisions live here as a state
//! machine: `FeroxScanner::scan_url` gives the first action, and each
//! outcome of an action, handed to `ScanMachine::step`, gives the next one,
//! until the scan completes.

use vstd::prelude::*;

verus! {

/// Whether a scan targets a url given by the user or one found by recursion.
#[derive(PartialEq, Eq, Structural, Debug, Clone, Copy)]
pub enum ScanOrder {
    Initial,
    Latest,
}

/// The settings of the run that the scan of a url reads.
#[derive(PartialEq, Eq, Structural, Debug, Clone, Copy)]
pub struct ScanSettings {
    /// `--extract-links`
    pub extract_links: bool,
    /// `--scan-limit`; 0 means no limit
    pub scan_limit: usize,
    /// `--collect-words`
    pub collect_words: bool,
}

/// Handles the main muscle movement of scanning a url.
pub struct FeroxScanner {
    /// url that will be scanned
    pub target_url: String,
    /// whether this scan targets a url given by the user or one found by recursion
    pub order: ScanOrder,
    /// wordlist that's already been read from disk
    pub wordlist: Vec<String>,
    /// the settings of the run that the scan reads
    pub settings: ScanSettings,
}

/// Where a scan stands: which action's outcome it waits for.
#[derive(PartialEq, Eq, Structural, Debug, Clone, Copy)]
pub enum ScanPhase {
    RobotsTxt,
    Lookup,
    Permit,
    Reset,
    Wildcard,
    WildcardProgress,
    DirListing,
    Requester,
    ListingExtraction,
    ListingTime,
    ListingExpected,
    ListingFinish,
    Wordlist,
    Collection,
    CollectedProgress,
    CollectedWords,
    ScanTime,
    Finish,
    Done,
}

/// Why a scan failed.
#[derive(Debug)]
pub enum ScanError {
    /// No scan is registered for the target url. The scan cannot go on; the
    /// error is reported as `missing_scan_text` of the url.
    MissingScan,
    /// An operation of the scan failed with this error text.
    Operation(String),
}

/// What the scan asks to be done next.
#[derive(Debug)]
pub enum ScanAction {
    /// Request robots.txt of the target and the links extracted from it.
    ExtractRobotsTxt,
    /// Look up the scan registered for the target and mark it running.
    LookupScan,
    /// Wait for a permit of the limiter of concurrent scans.
    AcquirePermit,
    /// Restart the scan timer and reset the progress bar.
    ResetProgress,
    /// Run the wildcard heuristic against the target.
    TestWildcard,
    /// Advance the progress bar by this many requests.
    AdvanceProgress(u64),
    /// Run the directory listing heuristic against the target.
    TestDirectoryListing,
    /// Request the links extracted from the directory listing found.
    ExtractDirectoryListing,
    /// Record the time the scan of the target took.
    RecordScanTime,
    /// Take the progress bar's length off the number of expected requests.
    SubtractProgressFromExpected,
    /// Finish the progress bar with the directory listing message and mark
    /// the scan finished.
    FinishListing,
    /// Build the requester that the words of the scan go through.
    BuildRequester,
    /// Request every word of the wordlist.
    StreamWordlist,
    /// Fetch the words collected from responses.
    CollectWords,
    /// Set the progress bar's length and add the collected words to the
    /// number of expected requests.
    ExtendProgress { new_length: u64, added: usize },
    /// Request every collected word.
    StreamCollectedWords,
    /// Mark the scan finished.
    FinishScan,
    /// The scan is over, with this result.
    Complete(Result<(), ScanError>),
}

/// The outcome of the last action.
#[derive(Debug)]
pub enum ScanEvent {
    /// The action was done.
    Completed,
    /// The action failed with this error text.
    Failed(String),
    /// The lookup found no scan for the target.
    ScanNotFound,
    /// The wildcard heuristic: `Some(n)` when it succeeded after `n` requests.
    WildcardResult(Option<u64>),
    /// The directory listing heuristic: whether it found a listing.
    ListingResult(bool),
    /// The collected words were fetched: how many, and the progress bar's
    /// length at that moment.
    Collected { count: usize, bar_length: u64 },
}


/// The two colors of the directory listing message.
#[derive(PartialEq, Eq, Structural, Debug, Clone, Copy)]
pub enum Tint {
    Blue,
    Yellow,
}

/// The escape sequence that sets the bright foreground of `tint`.
pub open spec fn bright_code(tint: Tint) -> Seq<char> {
    seq!['\x1b', '[', '3', '8', ';', '5', ';', '1', if tint == Tint::Blue { '2' } else { '1' }, 'm']
}

/// The escape sequence that resets all styles.
pub open spec fn reset_code() -> Seq<char> {
    seq!['\x1b', '[', '0', 'm']
}

/// `text` painted in bright `tint`: wrapped in escape sequences when colors
/// are on, left as it is otherwise.
pub open spec fn painted(tint: Tint, text: Seq<char>, colored: bool) -> Seq<char> {
    if colored {
        bright_code(tint) + text + reset_code()
    } else {
        text
    }
}

/// Calls `console::colors_enabled()`: whether output to stdout is colored.
/// Console decides it from the terminal and the environment (`CLICOLOR`,
/// `CLICOLOR_FORCE`) or from `set_colors_enabled`, so nothing is stated of the
/// answer.
#[verifier::external_body]
fn terminal_colors() -> (colored: bool) {
    console::colors_enabled()
}

/// Calls `console::style(text)`, then `.blue()` or `.yellow()`, `.bright()`,
/// `.force_styling(colored)` and `to_string()`. With styling forced, console's
/// `Display` impl writes the 256-color code of the bright color (`38;5;12` for
/// blue, `38;5;11` for yellow), the text and the reset code when `colored`
/// holds, and the text alone otherwise.
#[verifier::external_body]
fn paint_bright(text: &str, tint: Tint, colored: bool) -> (out: String)
    ensures
        out@ == painted(tint, text@, colored),
{
    match tint {
        Tint::Blue => console::style(text).blue().bright().force_styling(colored).to_string(),
        Tint::Yellow => console::style(text).yellow().bright().force_styling(colored).to_string(),
    }
}

/// The message of a directory listing: the styled label, and, when links are
/// not extracted, a hint at the flag that would scan the listing.
pub open spec fn listing_message(label: Seq<char>, flag: Seq<char>, extract_links: bool) -> Seq<char> {
    if extract_links {
        "=> "@ + label
    } else {
        "=> "@ + label + " (add "@ + flag + " to scan)"@
    }
}

/// Builds the directory listing message from its styled label and flag.
pub fn compose_listing_message(label: &str, flag: &str, extract_links: bool) -> (msg: String)
    ensures
        msg@ == listing_message(label@, flag@, extract_links),
{
    let msg = String::from_str("=> ").concat(label);
    if extract_links {
        msg
    } else {
        msg.concat(" (add ").concat(flag).concat(" to scan)")
    }
}

/// The message of a directory listing, with both the label and the flag
/// colored or both plain.
pub open spec fn styled_listing_message(extract_links: bool, colored: bool) -> Seq<char> {
    listing_message(
        painted(Tint::Blue, "Directory listing"@, colored),
        painted(Tint::Yellow, "-e"@, colored),
        extract_links,
    )
}

/// The message that a progress bar finishes with when a directory listing was
/// found, colored or not as `colored` says.
pub fn listing_message_in(extract_links: bool, colored: bool) -> (msg: String)
    ensures
        msg@ == styled_listing_message(extract_links, colored),
{
    let label = paint_bright("Directory listing", Tint::Blue, colored);
    if extract_links {
        compose_listing_message(label.as_str(), "", true)
    } else {
        let flag = paint_bright("-e", Tint::Yellow, colored);
        compose_listing_message(label.as_str(), flag.as_str(), false)
    }
}

/// The message that a progress bar finishes with when a directory listing was
/// found, styled for the terminal: colored when console colors stdout.
pub fn directory_listing_message(extract_links: bool) -> (msg: String)
    ensures
        exists|colored: bool| msg@ == #[trigger] styled_listing_message(extract_links, colored),
{
    let colored = terminal_colors();
    listing_message_in(extract_links, colored)
}

/// The text of the error of a scan of `target_url` that found no registered scan.
pub open spec fn missing_scan_text(target_url: Seq<char>) -> Seq<char> {
    "Could not find FeroxScan associated with "@ + target_url
        + "; this shouldn't happen... exiting"@
}

impl ScanError {
    /// The text of the error, for a scan of `target_url`. For a missing scan
    /// this is the bare message; the scanner's own error-prefix helper
    /// (`fmt_err`, which styles the text for the terminal) is not part of this
    /// library, so this text is what it is applied to, not its result.
    pub fn describe(&self, target_url: &str) -> (text: String)
        ensures
            text@ == match self {
                ScanError::MissingScan => missing_scan_text(target_url@),
                ScanError::Operation(msg) => msg@,
            },
    {
        match self {
            ScanError::MissingScan => String::from_str("Could not find FeroxScan associated with ")
                .concat(target_url).concat("; this shouldn't happen... exiting"),
            ScanError::Operation(msg) => msg.clone(),
        }
    }
}

/// What a finished request task asks of the scan.
#[derive(PartialEq, Eq, Structural, Debug, Clone, Copy)]
pub enum RequestOutcome {
    /// Advance the progress bar by this much.
    Advance(u64),
    /// Count an error in the statistics.
    RecordError,
}

/// The outcome of one request task of a stream of words: a task that ran
/// advances the progress bar by the number of requests each word makes; a task
/// that could not be awaited counts as an error.
pub fn request_outcome(task_ok: bool, requests_per_word: usize) -> (outcome: RequestOutcome)
    ensures
        outcome == (if task_ok {
            RequestOutcome::Advance(requests_per_word as u64)
        } else {
            RequestOutcome::RecordError
        }),
{
    if task_ok {
        RequestOutcome::Advance(requests_per_word as u64)
    } else {
        RequestOutcome::RecordError
    }
}

/// What the interactive menu of a paused scan returned.
#[derive(Debug)]
pub enum MenuCmdResult {
    /// The user asked to scan this url too.
    Url(String),
    /// The user cancelled scans worth this many requests.
    NumCancelled(usize),
}

/// What the scan sends after the interactive menu.
#[derive(Debug)]
pub enum UserInputCommand {
    /// Add this url to the scan queue.
    ScanNewUrl(String),
    /// Take this many requests off the number expected in total.
    SubtractExpected(usize),
}

/// Decides what follows the interactive menu of a paused scan: a new url is
/// queued for scanning, cancelled requests are taken off the total expected
/// (when there are any), and nothing is sent otherwise.
pub fn user_input_command(result: Option<MenuCmdResult>) -> (command: Option<UserInputCommand>)
    ensures
        match result {
            Some(MenuCmdResult::Url(url)) => command matches Some(UserInputCommand::ScanNewUrl(u))
                && u@ == url@,
            Some(MenuCmdResult::NumCancelled(n)) => if n > 0 {
                command matches Some(UserInputCommand::SubtractExpected(m)) && m == n
            } else {
                command is None
            },
            None => command is None,
        },
{
    match result {
        Some(MenuCmdResult::Url(url)) => Some(UserInputCommand::ScanNewUrl(url)),
        Some(MenuCmdResult::NumCancelled(n)) => if n > 0 {
            Some(UserInputCommand::SubtractExpected(n))
        } else {
            None
        },
        None => None,
    }
}

/// The first action of a scan, and the phase it leaves the scan in.
pub open spec fn scan_start(settings: ScanSettings, order: ScanOrder) -> (ScanPhase, ScanAction) {
    if settings.extract_links && order == ScanOrder::Initial {
        // robots.txt cannot be in sub-directories, so only initial targets ask for it
        (ScanPhase::RobotsTxt, ScanAction::ExtractRobotsTxt)
    } else {
        (ScanPhase::Lookup, ScanAction::LookupScan)
    }
}

/// The outcomes that the action pending in `phase` can have.
pub open spec fn scan_accepts(phase: ScanPhase, event: ScanEvent) -> bool {
    match phase {
        ScanPhase::RobotsTxt | ScanPhase::ListingExtraction | ScanPhase::ListingTime
        | ScanPhase::ListingExpected | ScanPhase::ListingFinish | ScanPhase::Requester
        | ScanPhase::ScanTime | ScanPhase::Finish => event is Completed || event is Failed,
        ScanPhase::Lookup => event is Completed || event is Failed || event is ScanNotFound,
        ScanPhase::Permit | ScanPhase::Reset | ScanPhase::WildcardProgress | ScanPhase::Wordlist
        | ScanPhase::CollectedProgress | ScanPhase::CollectedWords => event is Completed,
        ScanPhase::Wildcard => event is WildcardResult,
        ScanPhase::DirListing => event is ListingResult,
        ScanPhase::Collection => match event {
            ScanEvent::Collected { count, bar_length } => bar_length + count <= u64::MAX,
            _ => false,
        },
        ScanPhase::Done => false,
    }
}

/// The end of a scan with the given error text.
pub open spec fn failure(msg: String) -> (ScanPhase, ScanAction) {
    (ScanPhase::Done, ScanAction::Complete(Err(ScanError::Operation(msg))))
}

/// What the scan does on the outcome `event` of the action pending in
/// `phase`: the phase it moves to and the next action. Only the outcomes that
/// `scan_accepts` allows are ever handed to a scan; on others the value means
/// nothing.
pub open spec fn scan_transition(settings: ScanSettings, phase: ScanPhase, event: ScanEvent) -> (
    ScanPhase,
    ScanAction,
) {
    match (phase, event) {
        (ScanPhase::RobotsTxt, ScanEvent::Completed) => (ScanPhase::Lookup, ScanAction::LookupScan),
        (ScanPhase::Lookup, ScanEvent::Completed) => (ScanPhase::Permit, ScanAction::AcquirePermit),
        (ScanPhase::Lookup, ScanEvent::ScanNotFound) => (
            ScanPhase::Done,
            ScanAction::Complete(Err(ScanError::MissingScan)),
        ),
        (ScanPhase::Permit, _) => if settings.scan_limit > 0 {
            (ScanPhase::Reset, ScanAction::ResetProgress)
        } else {
            (ScanPhase::Wildcard, ScanAction::TestWildcard)
        },
        (ScanPhase::Reset, _) => (ScanPhase::Wildcard, ScanAction::TestWildcard),
        (ScanPhase::Wildcard, ScanEvent::WildcardResult(Some(n))) => (
            ScanPhase::WildcardProgress,
            ScanAction::AdvanceProgress(n),
        ),
        (ScanPhase::Wildcard, _) => (ScanPhase::DirListing, ScanAction::TestDirectoryListing),
        (ScanPhase::WildcardProgress, _) => (ScanPhase::DirListing, ScanAction::TestDirectoryListing),
        (ScanPhase::DirListing, ScanEvent::ListingResult(true)) => if settings.extract_links {
            (ScanPhase::ListingExtraction, ScanAction::ExtractDirectoryListing)
        } else {
            (ScanPhase::ListingFinish, ScanAction::FinishListing)
        },
        (ScanPhase::DirListing, _) => (ScanPhase::Requester, ScanAction::BuildRequester),
        (ScanPhase::Requester, ScanEvent::Completed) => (
            ScanPhase::Wordlist,
            ScanAction::StreamWordlist,
        ),
        (ScanPhase::ListingExtraction, ScanEvent::Completed) => (
            ScanPhase::ListingTime,
            ScanAction::RecordScanTime,
        ),
        (ScanPhase::ListingTime, ScanEvent::Completed) => (
            ScanPhase::ListingExpected,
            ScanAction::SubtractProgressFromExpected,
        ),
        (ScanPhase::ListingExpected, ScanEvent::Completed) => (
            ScanPhase::ListingFinish,
            ScanAction::FinishListing,
        ),
        (ScanPhase::ListingFinish, ScanEvent::Completed) => (
            ScanPhase::Done,
            ScanAction::Complete(Ok(())),
        ),
        (ScanPhase::Wordlist, _) => if settings.collect_words {
            (ScanPhase::Collection, ScanAction::CollectWords)
        } else {
            (ScanPhase::ScanTime, ScanAction::RecordScanTime)
        },
        (ScanPhase::Collection, ScanEvent::Collected { count, bar_length }) => (
            ScanPhase::CollectedProgress,
            ScanAction::ExtendProgress { new_length: (bar_length + count) as u64, added: count },
        ),
        (ScanPhase::CollectedProgress, _) => (
            ScanPhase::CollectedWords,
            ScanAction::StreamCollectedWords,
        ),
        (ScanPhase::CollectedWords, _) => (ScanPhase::ScanTime, ScanAction::RecordScanTime),
        (ScanPhase::ScanTime, ScanEvent::Completed) => (ScanPhase::Finish, ScanAction::FinishScan),
        (ScanPhase::Finish, ScanEvent::Completed) => (ScanPhase::Done, ScanAction::Complete(Ok(()))),
        (_, ScanEvent::Failed(msg)) => failure(msg),
        (_, _) => (ScanPhase::Done, ScanAction::Complete(Err(ScanError::MissingScan))),
    }
}

/// How many more actions a scan in `phase` can ask for, at most.
pub open spec fn scan_rank(phase: ScanPhase) -> nat {
    match phase {
        ScanPhase::RobotsTxt => 15,
        ScanPhase::Lookup => 14,
        ScanPhase::Permit => 13,
        ScanPhase::Reset => 12,
        ScanPhase::Wildcard => 11,
        ScanPhase::WildcardProgress => 10,
        ScanPhase::DirListing => 9,
        ScanPhase::Requester => 7,
        ScanPhase::ListingExtraction => 4,
        ScanPhase::ListingTime => 3,
        ScanPhase::ListingExpected => 2,
        ScanPhase::ListingFinish => 1,
        ScanPhase::Wordlist => 6,
        ScanPhase::Collection => 5,
        ScanPhase::CollectedProgress => 4,
        ScanPhase::CollectedWords => 3,
        ScanPhase::ScanTime => 2,
        ScanPhase::Finish => 1,
        ScanPhase::Done => 0,
    }
}

/// The actions a scan in `phase` asks for on the outcomes `events`, in
/// order; the scan stops at an outcome its pending action cannot have.
pub open spec fn scan_trace(settings: ScanSettings, phase: ScanPhase, events: Seq<ScanEvent>) -> Seq<
    ScanAction,
>
    decreases events.len(),
{
    if events.len() == 0 || !scan_accepts(phase, events[0]) {
        Seq::empty()
    } else {
        let (next, action) = scan_transition(settings, phase, events[0]);
        seq![action] + scan_trace(settings, next, events.drop_first())
    }
}

/// Every action of a scan of a target of the given order, from its first one,
/// on the outcomes `events`.
pub open spec fn scan_run(settings: ScanSettings, order: ScanOrder, events: Seq<ScanEvent>) -> Seq<
    ScanAction,
> {
    let (phase, first) = scan_start(settings, order);
    seq![first] + scan_trace(settings, phase, events)
}


/// Whether a scan that stands in `phase` is past a directory listing it found.
pub open spec fn in_listing(phase: ScanPhase) -> bool {
    phase == ScanPhase::ListingExtraction || phase == ScanPhase::ListingTime
        || phase == ScanPhase::ListingExpected || phase == ScanPhase::ListingFinish
}

/// Whether a scan that stands in `phase` has asked for its wordlist.
pub open spec fn past_wordlist(phase: ScanPhase) -> bool {
    phase == ScanPhase::Wordlist || phase == ScanPhase::Collection
        || phase == ScanPhase::CollectedProgress || phase == ScanPhase::CollectedWords
        || phase == ScanPhase::ScanTime || phase == ScanPhase::Finish
}

/// Every step that the pending action allows brings the scan closer to its end.
pub proof fn lemma_step_rank(settings: ScanSettings, phase: ScanPhase, event: ScanEvent)
    requires
        scan_accepts(phase, event),
    ensures
        scan_rank(scan_transition(settings, phase, event).0) < scan_rank(phase),
{
}

proof fn lemma_trace_len(settings: ScanSettings, phase: ScanPhase, events: Seq<ScanEvent>)
    ensures
        scan_trace(settings, phase, events).len() <= scan_rank(phase),
    decreases events.len(),
{
    if events.len() > 0 && scan_accepts(phase, events[0]) {
        let (next, action) = scan_transition(settings, phase, events[0]);
        lemma_step_rank(settings, phase, events[0]);
        lemma_trace_len(settings, next, events.drop_first());
    }
}

/// A scan ends: whatever the outcomes, it asks for at most sixteen actions.
pub proof fn lemma_scan_ends(settings: ScanSettings, order: ScanOrder, events: Seq<ScanEvent>)
    ensures
        scan_run(settings, order, events).len() <= 16,
{
    let (phase, first) = scan_start(settings, order);
    lemma_trace_len(settings, phase, events);
}

proof fn lemma_trace_complete_last(
    settings: ScanSettings,
    phase: ScanPhase,
    events: Seq<ScanEvent>,
    i: int,
)
    requires
        0 <= i < scan_trace(settings, phase, events).len(),
        scan_trace(settings, phase, events)[i] is Complete,
    ensures
        i == scan_trace(settings, phase, events).len() - 1,
    decreases events.len(),
{
    let (next, action) = scan_transition(settings, phase, events[0]);
    let rest = scan_trace(settings, next, events.drop_first());
    assert(scan_trace(settings, phase, events) == seq![action] + rest);
    if i == 0 {
        assert(next == ScanPhase::Done);
        assert(rest.len() == 0);
    } else {
        assert(rest[i - 1] == scan_trace(settings, phase, events)[i]);
        lemma_trace_complete_last(settings, next, events.drop_first(), i - 1);
    }
}

/// Once a scan completes it asks for nothing more: `Complete` is its last action.
pub proof fn lemma_complete_is_last(
    settings: ScanSettings,
    order: ScanOrder,
    events: Seq<ScanEvent>,
    i: int,
)
    requires
        0 <= i < scan_run(settings, order, events).len(),
        scan_run(settings, order, events)[i] is Complete,
    ensures
        i == scan_run(settings, order, events).len() - 1,
{
    let (phase, first) = scan_start(settings, order);
    let rest = scan_trace(settings, phase, events);
    assert(i > 0);
    assert(rest[i - 1] == scan_run(settings, order, events)[i]);
    lemma_trace_complete_last(settings, phase, events, i - 1);
}


/// An error of any operation of the scan ends the scan with that error.
pub proof fn lemma_failure_ends_scan(settings: ScanSettings, phase: ScanPhase, msg: String)
    requires
        scan_accepts(phase, ScanEvent::Failed(msg)),
    ensures
        scan_transition(settings, phase, ScanEvent::Failed(msg)) == failure(msg),
{
}

proof fn lemma_listing_never_streams(
    settings: ScanSettings,
    phase: ScanPhase,
    events: Seq<ScanEvent>,
    i: int,
)
    requires
        in_listing(phase) || phase == ScanPhase::Done,
        0 <= i < scan_trace(settings, phase, events).len(),
    ensures
        !(scan_trace(settings, phase, events)[i] is StreamWordlist),
    decreases events.len(),
{
    let (next, action) = scan_transition(settings, phase, events[0]);
    let rest = scan_trace(settings, next, events.drop_first());
    assert(scan_trace(settings, phase, events) == seq![action] + rest);
    if i > 0 {
        assert(rest[i - 1] == scan_trace(settings, phase, events)[i]);
        lemma_listing_never_streams(settings, next, events.drop_first(), i - 1);
    }
}

proof fn lemma_wordlist_never_lists(
    settings: ScanSettings,
    phase: ScanPhase,
    events: Seq<ScanEvent>,
    i: int,
)
    requires
        past_wordlist(phase) || phase == ScanPhase::Done,
        0 <= i < scan_trace(settings, phase, events).len(),
    ensures
        !(scan_trace(settings, phase, events)[i] is FinishListing),
    decreases events.len(),
{
    let (next, action) = scan_transition(settings, phase, events[0]);
    let rest = scan_trace(settings, next, events.drop_first());
    assert(scan_trace(settings, phase, events) == seq![action] + rest);
    if i > 0 {
        assert(rest[i - 1] == scan_trace(settings, phase, events)[i]);
        lemma_wordlist_never_lists(settings, next, events.drop_first(), i - 1);
    }
}

proof fn lemma_trace_listing_or_wordlist(
    settings: ScanSettings,
    phase: ScanPhase,
    events: Seq<ScanEvent>,
    i: int,
    j: int,
)
    requires
        0 <= i < scan_trace(settings, phase, events).len(),
        0 <= j < scan_trace(settings, phase, events).len(),
        scan_trace(settings, phase, events)[i] is FinishListing,
    ensures
        !(scan_trace(settings, phase, events)[j] is StreamWordlist),
    decreases events.len(),
{
    let (next, action) = scan_transition(settings, phase, events[0]);
    let rest = scan_trace(settings, next, events.drop_first());
    let whole = scan_trace(settings, phase, events);
    assert(whole == seq![action] + rest);
    if j == 0 {
        if whole[0] is StreamWordlist {
            assert(i > 0);
            assert(rest[i - 1] == whole[i]);
            lemma_wordlist_never_lists(settings, next, events.drop_first(), i - 1);
        }
    } else if i == 0 {
        assert(rest[j - 1] == whole[j]);
        lemma_listing_never_streams(settings, next, events.drop_first(), j - 1);
    } else {
        assert(rest[i - 1] == whole[i]);
        assert(rest[j - 1] == whole[j]);
        lemma_trace_listing_or_wordlist(settings, next, events.drop_first(), i - 1, j - 1);
    }
}

/// A scan that finds a directory listing never requests its wordlist, and one
/// that requests its wordlist never finishes on a directory listing.
pub proof fn lemma_listing_excludes_wordlist(
    settings: ScanSettings,
    order: ScanOrder,
    events: Seq<ScanEvent>,
    i: int,
    j: int,
)
    requires
        0 <= i < scan_run(settings, order, events).len(),
        0 <= j < scan_run(settings, order, events).len(),
        scan_run(settings, order, events)[i] is FinishListing,
    ensures
        !(scan_run(settings, order, events)[j] is StreamWordlist),
{
    let (phase, first) = scan_start(settings, order);
    let rest = scan_trace(settings, phase, events);
    let run = scan_run(settings, order, events);
    if j > 0 {
        assert(i > 0);
        assert(rest[i - 1] == run[i]);
        assert(rest[j - 1] == run[j]);
        lemma_trace_listing_or_wordlist(settings, phase, events, i - 1, j - 1);
    }
}

/// An action that marks the scan finished.
pub open spec fn finishes_scan(action: ScanAction) -> bool {
    action is FinishScan || action is FinishListing
}

proof fn lemma_trace_success_finished(
    settings: ScanSettings,
    phase: ScanPhase,
    events: Seq<ScanEvent>,
    i: int,
)
    requires
        0 <= i < scan_trace(settings, phase, events).len(),
        scan_trace(settings, phase, events)[i] matches ScanAction::Complete(Ok(_)),
    ensures
        (exists|j: int| 0 <= j < i && finishes_scan(#[trigger] scan_trace(settings, phase, events)[j]))
            || (i == 0 && (phase == ScanPhase::ListingFinish || phase == ScanPhase::Finish)),
    decreases events.len(),
{
    let (next, action) = scan_transition(settings, phase, events[0]);
    let rest = scan_trace(settings, next, events.drop_first());
    let whole = scan_trace(settings, phase, events);
    assert(whole == seq![action] + rest);
    if i > 0 {
        assert(rest[i - 1] == whole[i]);
        lemma_trace_success_finished(settings, next, events.drop_first(), i - 1);
        if i - 1 == 0 && (next == ScanPhase::ListingFinish || next == ScanPhase::Finish) {
            assert(finishes_scan(whole[0]));
        } else {
            let k = choose|k: int| 0 <= k < i - 1 && finishes_scan(#[trigger] rest[k]);
            assert(whole[k + 1] == rest[k]);
            assert(finishes_scan(whole[k + 1]));
        }
    }
}

/// A scan succeeds only after it was marked finished.
pub proof fn lemma_success_is_finished(
    settings: ScanSettings,
    order: ScanOrder,
    events: Seq<ScanEvent>,
    i: int,
)
    requires
        0 <= i < scan_run(settings, order, events).len(),
        scan_run(settings, order, events)[i] matches ScanAction::Complete(Ok(_)),
    ensures
        exists|j: int| 0 <= j < i && finishes_scan(#[trigger] scan_run(settings, order, events)[j]),
{
    let (phase, first) = scan_start(settings, order);
    let rest = scan_trace(settings, phase, events);
    let run = scan_run(settings, order, events);
    assert(i > 0);
    assert(rest[i - 1] == run[i]);
    lemma_trace_success_finished(settings, phase, events, i - 1);
    let k = choose|k: int| 0 <= k < i - 1 && finishes_scan(#[trigger] rest[k]);
    assert(run[k + 1] == rest[k]);
}

proof fn lemma_no_collected_after_time(
    settings: ScanSettings,
    phase: ScanPhase,
    events: Seq<ScanEvent>,
    i: int,
)
    requires
        phase == ScanPhase::ScanTime || phase == ScanPhase::Finish || phase == ScanPhase::Done,
        0 <= i < scan_trace(settings, phase, events).len(),
    ensures
        !(scan_trace(settings, phase, events)[i] is StreamCollectedWords),
    decreases events.len(),
{
    let (next, action) = scan_transition(settings, phase, events[0]);
    let rest = scan_trace(settings, next, events.drop_first());
    assert(scan_trace(settings, phase, events) == seq![action] + rest);
    if i > 0 {
        assert(rest[i - 1] == scan_trace(settings, phase, events)[i]);
        lemma_no_collected_after_time(settings, next, events.drop_first(), i - 1);
    }
}

proof fn lemma_collected_from_wordlist(
    settings: ScanSettings,
    events: Seq<ScanEvent>,
    i: int,
)
    requires
        0 <= i < scan_trace(settings, ScanPhase::Wordlist, events).len(),
        scan_trace(settings, ScanPhase::Wordlist, events)[i] is StreamCollectedWords,
    ensures
        settings.collect_words,
{
    let (next, action) = scan_transition(settings, ScanPhase::Wordlist, events[0]);
    let rest = scan_trace(settings, next, events.drop_first());
    assert(scan_trace(settings, ScanPhase::Wordlist, events) == seq![action] + rest);
    if !settings.collect_words {
        assert(i > 0);
        assert(rest[i - 1] == scan_trace(settings, ScanPhase::Wordlist, events)[i]);
        lemma_no_collected_after_time(settings, next, events.drop_first(), i - 1);
    }
}

proof fn lemma_trace_collected_after_wordlist(
    settings: ScanSettings,
    phase: ScanPhase,
    events: Seq<ScanEvent>,
    i: int,
)
    requires
        phase != ScanPhase::Wordlist,
        phase != ScanPhase::Collection,
        phase != ScanPhase::CollectedProgress,
        phase != ScanPhase::CollectedWords,
        0 <= i < scan_trace(settings, phase, events).len(),
        scan_trace(settings, phase, events)[i] is StreamCollectedWords,
    ensures
        settings.collect_words,
        exists|j: int| 0 <= j < i && (#[trigger] scan_trace(settings, phase, events)[j]) is StreamWordlist,
    decreases events.len(),
{
    let (next, action) = scan_transition(settings, phase, events[0]);
    let rest = scan_trace(settings, next, events.drop_first());
    let whole = scan_trace(settings, phase, events);
    assert(whole == seq![action] + rest);
    assert(i > 0);
    assert(rest[i - 1] == whole[i]);
    if action is StreamWordlist {
        assert(next == ScanPhase::Wordlist);
        lemma_collected_from_wordlist(settings, events.drop_first(), i - 1);
        assert(whole[0] is StreamWordlist);
    } else {
        lemma_trace_collected_after_wordlist(settings, next, events.drop_first(), i - 1);
        let k = choose|k: int| 0 <= k < i - 1 && (#[trigger] rest[k]) is StreamWordlist;
        assert(whole[k + 1] == rest[k]);
    }
}

/// Collected words are requested only with `--collect-words`, and only after
/// the wordlist was.
pub proof fn lemma_collected_words_follow_wordlist(
    settings: ScanSettings,
    order: ScanOrder,
    events: Seq<ScanEvent>,
    i: int,
)
    requires
        0 <= i < scan_run(settings, order, events).len(),
        scan_run(settings, order, events)[i] is StreamCollectedWords,
    ensures
        settings.collect_words,
        exists|j: int| 0 <= j < i && (#[trigger] scan_run(settings, order, events)[j]) is StreamWordlist,
{
    let (phase, first) = scan_start(settings, order);
    let rest = scan_trace(settings, phase, events);
    let run = scan_run(settings, order, events);
    assert(i > 0);
    assert(rest[i - 1] == run[i]);
    lemma_trace_collected_after_wordlist(settings, phase, events, i - 1);
    let k = choose|k: int| 0 <= k < i - 1 && (#[trigger] rest[k]) is StreamWordlist;
    assert(run[k + 1] == rest[k]);
}

proof fn lemma_trace_no_robots(settings: ScanSettings, phase: ScanPhase, events: Seq<ScanEvent>, i: int)
    requires
        0 <= i < scan_trace(settings, phase, events).len(),
    ensures
        !(scan_trace(settings, phase, events)[i] is ExtractRobotsTxt),
    decreases events.len(),
{
    let (next, action) = scan_transition(settings, phase, events[0]);
    let rest = scan_trace(settings, next, events.drop_first());
    assert(scan_trace(settings, phase, events) == seq![action] + rest);
    if i > 0 {
        assert(rest[i - 1] == scan_trace(settings, phase, events)[i]);
        lemma_trace_no_robots(settings, next, events.drop_first(), i - 1);
    }
}

/// robots.txt is requested exactly when links are extracted from an initial
/// target, and then first of all.
pub proof fn lemma_robots_only_initial(
    settings: ScanSettings,
    order: ScanOrder,
    events: Seq<ScanEvent>,
    i: int,
)
    requires
        0 <= i < scan_run(settings, order, events).len(),
    ensures
        (scan_run(settings, order, events)[i] is ExtractRobotsTxt) <==> (i == 0
            && settings.extract_links && order == ScanOrder::Initial),
{
    let (phase, first) = scan_start(settings, order);
    let rest = scan_trace(settings, phase, events);
    let run = scan_run(settings, order, events);
    if i > 0 {
        assert(rest[i - 1] == run[i]);
        lemma_trace_no_robots(settings, phase, events, i - 1);
    }
}


/// How a scan starts: a scan of an initial target with `--extract-links`
/// first asks for robots.txt; every other scan first looks up the scan
/// registered for its url and marks it running.
pub proof fn lemma_scan_start(settings: ScanSettings, order: ScanOrder)
    ensures
        settings.extract_links && order == ScanOrder::Initial ==> scan_start(settings, order) == (
            ScanPhase::RobotsTxt,
            ScanAction::ExtractRobotsTxt,
        ),
        !(settings.extract_links && order == ScanOrder::Initial) ==> scan_start(settings, order) == (
            ScanPhase::Lookup,
            ScanAction::LookupScan,
        ),
{
}

proof fn lemma_trace_permit_after_lookup(
    settings: ScanSettings,
    phase: ScanPhase,
    events: Seq<ScanEvent>,
    i: int,
)
    requires
        phase != ScanPhase::Lookup,
        0 <= i < scan_trace(settings, phase, events).len(),
        scan_trace(settings, phase, events)[i] is AcquirePermit,
    ensures
        exists|j: int| 0 <= j < i && (#[trigger] scan_trace(settings, phase, events)[j]) is LookupScan,
    decreases events.len(),
{
    let (next, action) = scan_transition(settings, phase, events[0]);
    let rest = scan_trace(settings, next, events.drop_first());
    let whole = scan_trace(settings, phase, events);
    assert(whole == seq![action] + rest);
    assert(i > 0);
    assert(rest[i - 1] == whole[i]);
    if action is LookupScan {
        assert(whole[0] is LookupScan);
    } else {
        assert(next != ScanPhase::Lookup);
        lemma_trace_permit_after_lookup(settings, next, events.drop_first(), i - 1);
        let k = choose|k: int| 0 <= k < i - 1 && (#[trigger] rest[k]) is LookupScan;
        assert(whole[k + 1] == rest[k]);
    }
}

/// No scan waits for a permit of the scan limiter before it has looked up the
/// scan registered for its url (and so marked it running, or ended on its
/// absence).
pub proof fn lemma_lookup_before_permit(
    settings: ScanSettings,
    order: ScanOrder,
    events: Seq<ScanEvent>,
    i: int,
)
    requires
        0 <= i < scan_run(settings, order, events).len(),
        scan_run(settings, order, events)[i] is AcquirePermit,
    ensures
        exists|j: int| 0 <= j < i && (#[trigger] scan_run(settings, order, events)[j]) is LookupScan,
{
    let (phase, first) = scan_start(settings, order);
    let rest = scan_trace(settings, phase, events);
    let run = scan_run(settings, order, events);
    assert(i > 0);
    assert(rest[i - 1] == run[i]);
    if first is LookupScan {
        assert(run[0] is LookupScan);
    } else {
        lemma_trace_permit_after_lookup(settings, phase, events, i - 1);
        let k = choose|k: int| 0 <= k < i - 1 && (#[trigger] rest[k]) is LookupScan;
        assert(run[k + 1] == rest[k]);
    }
}

/// The decisions of a scan once it holds a permit: with a scan limit it
/// restarts its timer and progress bar; a wildcard heuristic that ran advances
/// the bar by its requests; a directory listing found is extracted from with
/// `--extract-links` and finished at once without; no listing leads to the
/// requester, and from it to the wordlist.
pub proof fn lemma_heuristic_decisions(settings: ScanSettings, n: u64)
    ensures
        scan_transition(settings, ScanPhase::Permit, ScanEvent::Completed) == (if settings.scan_limit
            > 0 {
            (ScanPhase::Reset, ScanAction::ResetProgress)
        } else {
            (ScanPhase::Wildcard, ScanAction::TestWildcard)
        }),
        scan_transition(settings, ScanPhase::Reset, ScanEvent::Completed) == (
            ScanPhase::Wildcard,
            ScanAction::TestWildcard,
        ),
        scan_transition(settings, ScanPhase::Wildcard, ScanEvent::WildcardResult(Some(n))) == (
            ScanPhase::WildcardProgress,
            ScanAction::AdvanceProgress(n),
        ),
        scan_transition(settings, ScanPhase::Wildcard, ScanEvent::WildcardResult(None)) == (
            ScanPhase::DirListing,
            ScanAction::TestDirectoryListing,
        ),
        scan_transition(settings, ScanPhase::WildcardProgress, ScanEvent::Completed) == (
            ScanPhase::DirListing,
            ScanAction::TestDirectoryListing,
        ),
        scan_transition(settings, ScanPhase::DirListing, ScanEvent::ListingResult(true)) == (if settings.extract_links {
            (ScanPhase::ListingExtraction, ScanAction::ExtractDirectoryListing)
        } else {
            (ScanPhase::ListingFinish, ScanAction::FinishListing)
        }),
        scan_transition(settings, ScanPhase::DirListing, ScanEvent::ListingResult(false)) == (
            ScanPhase::Requester,
            ScanAction::BuildRequester,
        ),
        scan_transition(settings, ScanPhase::Requester, ScanEvent::Completed) == (
            ScanPhase::Wordlist,
            ScanAction::StreamWordlist,
        ),
{
}

/// The decisions of a scan after its wordlist: with `--collect-words`, and
/// whatever the other settings, the collected words are fetched next, the bar
/// grows by their number, and they are requested before the scan time is
/// recorded; without it the scan time is recorded at once.
pub proof fn lemma_collection_decisions(settings: ScanSettings, count: usize, bar_length: u64)
    requires
        bar_length + count <= u64::MAX,
    ensures
        settings.collect_words ==> scan_transition(settings, ScanPhase::Wordlist, ScanEvent::Completed)
            == (ScanPhase::Collection, ScanAction::CollectWords),
        !settings.collect_words ==> scan_transition(settings, ScanPhase::Wordlist, ScanEvent::Completed)
            == (ScanPhase::ScanTime, ScanAction::RecordScanTime),
        scan_transition(
            settings,
            ScanPhase::Collection,
            ScanEvent::Collected { count, bar_length },
        ).1 == (ScanAction::ExtendProgress { new_length: (bar_length + count) as u64, added: count }),
        scan_transition(
            settings,
            ScanPhase::Collection,
            ScanEvent::Collected { count, bar_length },
        ).0 == ScanPhase::CollectedProgress,
        scan_transition(settings, ScanPhase::CollectedProgress, ScanEvent::Completed) == (
            ScanPhase::CollectedWords,
            ScanAction::StreamCollectedWords,
        ),
        scan_transition(settings, ScanPhase::CollectedWords, ScanEvent::Completed) == (
            ScanPhase::ScanTime,
            ScanAction::RecordScanTime,
        ),
{
}

/// The steps that end a scan: robots.txt leads to the lookup; a lookup that
/// finds the scan leads to the permit and one that finds none ends the scan
/// with the missing-scan error; a listing that was extracted from has its time
/// recorded, its bar taken off the expected total and is then finished; the
/// scan time leads to finishing the scan; and a finished scan succeeds.
pub proof fn lemma_closing_decisions(settings: ScanSettings)
    ensures
        scan_transition(settings, ScanPhase::RobotsTxt, ScanEvent::Completed) == (
            ScanPhase::Lookup,
            ScanAction::LookupScan,
        ),
        scan_transition(settings, ScanPhase::Lookup, ScanEvent::Completed) == (
            ScanPhase::Permit,
            ScanAction::AcquirePermit,
        ),
        scan_transition(settings, ScanPhase::Lookup, ScanEvent::ScanNotFound) == (
            ScanPhase::Done,
            ScanAction::Complete(Err(ScanError::MissingScan)),
        ),
        scan_transition(settings, ScanPhase::ListingExtraction, ScanEvent::Completed) == (
            ScanPhase::ListingTime,
            ScanAction::RecordScanTime,
        ),
        scan_transition(settings, ScanPhase::ListingTime, ScanEvent::Completed) == (
            ScanPhase::ListingExpected,
            ScanAction::SubtractProgressFromExpected,
        ),
        scan_transition(settings, ScanPhase::ListingExpected, ScanEvent::Completed) == (
            ScanPhase::ListingFinish,
            ScanAction::FinishListing,
        ),
        scan_transition(settings, ScanPhase::ListingFinish, ScanEvent::Completed) == (
            ScanPhase::Done,
            ScanAction::Complete(Ok(())),
        ),
        scan_transition(settings, ScanPhase::ScanTime, ScanEvent::Completed) == (
            ScanPhase::Finish,
            ScanAction::FinishScan,
        ),
        scan_transition(settings, ScanPhase::Finish, ScanEvent::Completed) == (
            ScanPhase::Done,
            ScanAction::Complete(Ok(())),
        ),
{
}

/// Every outcome that the pending action can have is taken: any number of
/// collected words (none included) as long as the bar's length stays within
/// `u64`, any result of a heuristic, the absence of the scan at its lookup, a
/// failure of any operation that can fail, and the completion of every action;
/// a scan that is over takes nothing.
pub proof fn lemma_accepted_outcomes(
    phase: ScanPhase,
    count: usize,
    bar_length: u64,
    wildcard: Option<u64>,
    listing: bool,
    msg: String,
)
    ensures
        scan_accepts(ScanPhase::Collection, ScanEvent::Collected { count, bar_length }) <==> bar_length
            + count <= u64::MAX,
        scan_accepts(ScanPhase::Wildcard, ScanEvent::WildcardResult(wildcard)),
        scan_accepts(ScanPhase::DirListing, ScanEvent::ListingResult(listing)),
        scan_accepts(ScanPhase::Lookup, ScanEvent::ScanNotFound),
        phase != ScanPhase::Wildcard && phase != ScanPhase::DirListing && phase
            != ScanPhase::Collection && phase != ScanPhase::Done ==> scan_accepts(
            phase,
            ScanEvent::Completed,
        ),
        (phase == ScanPhase::RobotsTxt || phase == ScanPhase::Lookup || phase
            == ScanPhase::ListingExtraction || phase == ScanPhase::ListingTime || phase
            == ScanPhase::ListingExpected || phase == ScanPhase::ListingFinish || phase
            == ScanPhase::Requester || phase == ScanPhase::ScanTime || phase == ScanPhase::Finish)
            ==> scan_accepts(phase, ScanEvent::Failed(msg)),
        !scan_accepts(ScanPhase::Done, ScanEvent::Completed),
{
}

/// A scan in progress.
pub struct ScanMachine {
    /// the settings of the run
    pub settings: ScanSettings,
    /// the action whose outcome the scan waits for
    pub phase: ScanPhase,
}

impl FeroxScanner {
    /// create a new FeroxScanner
    pub fn new(target_url: &str, order: ScanOrder, wordlist: Vec<String>, settings: ScanSettings) -> (scanner: Self)
        ensures
            scanner.target_url@ == target_url@,
            scanner.order == order,
            scanner.wordlist@ == wordlist@,
            scanner.settings == settings,
    {
        FeroxScanner { target_url: String::from_str(target_url), order, wordlist, settings }
    }

    /// Scan a given url using a given wordlist: starts the scan and gives its
    /// first action.
    ///
    /// This is the primary entrypoint for the scanner
    pub fn scan_url(&self) -> (res: (ScanMachine, ScanAction))
        ensures
            res.0.settings == self.settings,
            (res.0.phase, res.1) == scan_start(self.settings, self.order),
    {
        let settings = self.settings;
        if settings.extract_links && self.order == ScanOrder::Initial {
            (ScanMachine { settings, phase: ScanPhase::RobotsTxt }, ScanAction::ExtractRobotsTxt)
        } else {
            (ScanMachine { settings, phase: ScanPhase::Lookup }, ScanAction::LookupScan)
        }
    }
}

impl ScanMachine {
    /// Whether the scan is over.
    pub fn is_done(&self) -> (done: bool)
        ensures
            done == (self.phase == ScanPhase::Done),
    {
        self.phase == ScanPhase::Done
    }

    /// Whether `event` is an outcome that the pending action can have.
    pub fn accepts(&self, event: &ScanEvent) -> (ok: bool)
        ensures
            ok == scan_accepts(self.phase, *event),
    {
        match self.phase {
            ScanPhase::RobotsTxt | ScanPhase::ListingExtraction | ScanPhase::ListingTime
            | ScanPhase::ListingExpected | ScanPhase::ListingFinish | ScanPhase::Requester
            | ScanPhase::ScanTime | ScanPhase::Finish => match event {
                ScanEvent::Completed | ScanEvent::Failed(_) => true,
                _ => false,
            },
            ScanPhase::Lookup => match event {
                ScanEvent::Completed | ScanEvent::Failed(_) | ScanEvent::ScanNotFound => true,
                _ => false,
            },
            ScanPhase::Permit | ScanPhase::Reset | ScanPhase::WildcardProgress
            | ScanPhase::Wordlist | ScanPhase::CollectedProgress | ScanPhase::CollectedWords =>
                match event {
                ScanEvent::Completed => true,
                _ => false,
            },
            ScanPhase::Wildcard => match event {
                ScanEvent::WildcardResult(_) => true,
                _ => false,
            },
            ScanPhase::DirListing => match event {
                ScanEvent::ListingResult(_) => true,
                _ => false,
            },
            ScanPhase::Collection => match event {
                ScanEvent::Collected { count, bar_length } => *count as u64 <= u64::MAX
                    - *bar_length,
                _ => false,
            },
            ScanPhase::Done => false,
        }
    }

    /// Takes the outcome of the pending action and gives the next action.
    pub fn step(&mut self, event: ScanEvent) -> (action: ScanAction)
        requires
            scan_accepts(old(self).phase, event),
        ensures
            final(self).settings == old(self).settings,
            (final(self).phase, action) == scan_transition(old(self).settings, old(self).phase, event),
            scan_rank(final(self).phase) < scan_rank(old(self).phase),
    {
        let settings = self.settings;
        let (phase, action) = match (self.phase, event) {
            (ScanPhase::RobotsTxt, ScanEvent::Completed) => (ScanPhase::Lookup, ScanAction::LookupScan),
            (ScanPhase::Lookup, ScanEvent::Completed) => (ScanPhase::Permit, ScanAction::AcquirePermit),
            (ScanPhase::Lookup, ScanEvent::ScanNotFound) => (
                ScanPhase::Done,
                ScanAction::Complete(Err(ScanError::MissingScan)),
            ),
            (ScanPhase::Permit, _) => if settings.scan_limit > 0 {
                (ScanPhase::Reset, ScanAction::ResetProgress)
            } else {
                (ScanPhase::Wildcard, ScanAction::TestWildcard)
            },
            (ScanPhase::Reset, _) => (ScanPhase::Wildcard, ScanAction::TestWildcard),
            (ScanPhase::Wildcard, ScanEvent::WildcardResult(Some(n))) => (
                ScanPhase::WildcardProgress,
                ScanAction::AdvanceProgress(n),
            ),
            (ScanPhase::Wildcard, _) => (ScanPhase::DirListing, ScanAction::TestDirectoryListing),
            (ScanPhase::WildcardProgress, _) => (
                ScanPhase::DirListing,
                ScanAction::TestDirectoryListing,
            ),
            (ScanPhase::DirListing, ScanEvent::ListingResult(true)) => if settings.extract_links {
                (ScanPhase::ListingExtraction, ScanAction::ExtractDirectoryListing)
            } else {
                (ScanPhase::ListingFinish, ScanAction::FinishListing)
            },
            (ScanPhase::DirListing, _) => (ScanPhase::Requester, ScanAction::BuildRequester),
            (ScanPhase::Requester, ScanEvent::Completed) => (
                ScanPhase::Wordlist,
                ScanAction::StreamWordlist,
            ),
            (ScanPhase::ListingExtraction, ScanEvent::Completed) => (
                ScanPhase::ListingTime,
                ScanAction::RecordScanTime,
            ),
            (ScanPhase::ListingTime, ScanEvent::Completed) => (
                ScanPhase::ListingExpected,
                ScanAction::SubtractProgressFromExpected,
            ),
            (ScanPhase::ListingExpected, ScanEvent::Completed) => (
                ScanPhase::ListingFinish,
                ScanAction::FinishListing,
            ),
            (ScanPhase::ListingFinish, ScanEvent::Completed) => (
                ScanPhase::Done,
                ScanAction::Complete(Ok(())),
            ),
            (ScanPhase::Wordlist, _) => if settings.collect_words {
                (ScanPhase::Collection, ScanAction::CollectWords)
            } else {
                (ScanPhase::ScanTime, ScanAction::RecordScanTime)
            },
            (ScanPhase::Collection, ScanEvent::Collected { count, bar_length }) => (
                ScanPhase::CollectedProgress,
                ScanAction::ExtendProgress { new_length: bar_length + count as u64, added: count },
            ),
            (ScanPhase::CollectedProgress, _) => (
                ScanPhase::CollectedWords,
                ScanAction::StreamCollectedWords,
            ),
            (ScanPhase::CollectedWords, _) => (ScanPhase::ScanTime, ScanAction::RecordScanTime),
            (ScanPhase::ScanTime, ScanEvent::Completed) => (
                ScanPhase::Finish,
                ScanAction::FinishScan,
            ),
            (ScanPhase::Finish, ScanEvent::Completed) => (
                ScanPhase::Done,
                ScanAction::Complete(Ok(())),
            ),
            (_, ScanEvent::Failed(msg)) => (
                ScanPhase::Done,
                ScanAction::Complete(Err(ScanError::Operation(msg))),
            ),
            (_, _) => (ScanPhase::Done, ScanAction::Complete(Err(ScanError::MissingScan))),
        };
        self.phase = phase;
        action
    }
}

} // verus!
