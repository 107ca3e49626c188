//! The directory scanner: a depth-first walk that turns files into
//! certificate records.
//!
//! The scanner never touches the filesystem. It asks for one directory
//! listing or one file at a time, is handed the answer as a `ScanEvent`, and
//! decides what comes next: which files become records, which are passed
//! over, how deep the walk goes and what ends it.

use crate::decimal::decimal;
use crate::decimal::decimal_text;
use crate::decoder::decode_pem;
use crate::decoder::pem_certificate;
use crate::path::path_text;
use crate::path::path_utf8;
use crate::path::show_path;
use crate::path::shown_path;
use crate::path::texts;
use crate::x509::record_of;
use crate::x509::records_view;
use crate::x509::X509View;
use crate::x509::X509;
use std::path::PathBuf;
use vstd::prelude::*;
use vstd::string::StringExecFns;

verus! {

/// How many levels below the root a scan descends where no bound is given.
pub const DEFAULT_MAX_DEPTH: u8 = 2;

/// One entry of a directory listing.
#[derive(Debug, PartialEq, Eq)]
pub enum ScanEntry {
    /// A file, which may hold a certificate.
    File(PathBuf),
    /// Anything that is no file: the walk may descend into it.
    Directory(PathBuf),
    /// An entry that the enumeration could not deliver.
    Unreadable(String),
}

/// An entry of a listing as a mathematical value.
pub enum ScanEntryView {
    File(PathBuf),
    Directory(PathBuf),
    Unreadable(Seq<char>),
}

impl View for ScanEntry {
    type V = ScanEntryView;

    open spec fn view(&self) -> ScanEntryView {
        match *self {
            ScanEntry::File(path) => ScanEntryView::File(path),
            ScanEntry::Directory(path) => ScanEntryView::Directory(path),
            ScanEntry::Unreadable(reason) => ScanEntryView::Unreadable(reason@),
        }
    }
}

/// What a listing holds.
pub open spec fn entries_view(entries: Seq<ScanEntry>) -> Seq<ScanEntryView> {
    entries.map_values(|entry: ScanEntry| entry@)
}

/// The answer to a scanner's request.
#[derive(Debug, PartialEq, Eq)]
pub enum ScanEvent {
    /// The entries of the directory asked for, in the order in which the
    /// filesystem gave them.
    Listed(Vec<ScanEntry>),
    /// The directory asked for could not be opened.
    ListingFailed(String),
    /// The bytes of the file asked for.
    Contents(Vec<u8>),
    /// The file asked for could not be read.
    ContentsUnreadable,
}

/// An event as a mathematical value.
pub enum ScanEventView {
    Listed(Seq<ScanEntryView>),
    ListingFailed(Seq<char>),
    Contents(Seq<u8>),
    ContentsUnreadable,
}

impl View for ScanEvent {
    type V = ScanEventView;

    open spec fn view(&self) -> ScanEventView {
        match *self {
            ScanEvent::Listed(entries) => ScanEventView::Listed(entries_view(entries@)),
            ScanEvent::ListingFailed(reason) => ScanEventView::ListingFailed(reason@),
            ScanEvent::Contents(data) => ScanEventView::Contents(data@),
            ScanEvent::ContentsUnreadable => ScanEventView::ContentsUnreadable,
        }
    }
}

/// What a scanner waits for.
#[derive(Debug, PartialEq, Eq)]
pub enum ScanRequest {
    /// The listing of the directory `dir`, which lies `level` levels below
    /// the root.
    ListDirectory { dir: String, level: u8 },
    /// The bytes of `file`, which lies in a directory `level` levels below
    /// the root.
    ReadFile { file: PathBuf, level: u8 },
}

/// A request as a mathematical value.
pub enum ScanRequestView {
    ListDirectory { dir: Seq<char>, level: u8 },
    ReadFile { file: PathBuf, level: u8 },
}

impl View for ScanRequest {
    type V = ScanRequestView;

    open spec fn view(&self) -> ScanRequestView {
        match *self {
            ScanRequest::ListDirectory { dir, level } => ScanRequestView::ListDirectory {
                dir: dir@,
                level,
            },
            ScanRequest::ReadFile { file, level } => ScanRequestView::ReadFile { file, level },
        }
    }
}

/// What ends a scan without a result.
#[derive(Debug, PartialEq, Eq)]
pub enum ScanError {
    /// The directory `dir` could not be opened.
    DirectoryUnreadable { dir: String, reason: String },
    /// The enumeration of a directory failed at one of its entries.
    EntryUnreadable { reason: String },
    /// A directory that the walk was to descend into has a path that is not
    /// valid Unicode.
    PathNotText { path: PathBuf },
    /// The event answers another request than the one that was pending.
    UnexpectedEvent,
}

/// An error as a mathematical value.
pub enum ScanErrorView {
    DirectoryUnreadable { dir: Seq<char>, reason: Seq<char> },
    EntryUnreadable { reason: Seq<char> },
    PathNotText { path: PathBuf },
    UnexpectedEvent,
}

impl View for ScanError {
    type V = ScanErrorView;

    open spec fn view(&self) -> ScanErrorView {
        match *self {
            ScanError::DirectoryUnreadable { dir, reason } => ScanErrorView::DirectoryUnreadable {
                dir: dir@,
                reason: reason@,
            },
            ScanError::EntryUnreadable { reason } => ScanErrorView::EntryUnreadable {
                reason: reason@,
            },
            ScanError::PathNotText { path } => ScanErrorView::PathNotText { path },
            ScanError::UnexpectedEvent => ScanErrorView::UnexpectedEvent,
        }
    }
}

/// The text of the error for a directory whose path is not valid Unicode.
pub const PATH_NOT_TEXT: &'static str = "Couldn't not parse the nested directory.";

/// The text of the error for an event that answers no pending request.
pub const UNEXPECTED_EVENT: &'static str =
    "The scanner was handed an answer to no request of its own.";

impl ScanErrorView {
    /// The text of the error. A failure of the filesystem speaks for itself.
    pub open spec fn text(self) -> Seq<char> {
        match self {
            ScanErrorView::DirectoryUnreadable { dir, reason } => reason,
            ScanErrorView::EntryUnreadable { reason } => reason,
            ScanErrorView::PathNotText { path } => PATH_NOT_TEXT@,
            ScanErrorView::UnexpectedEvent => UNEXPECTED_EVENT@,
        }
    }
}

impl ScanError {
    /// Renders the error as text.
    pub fn message(&self) -> (r: String)
        ensures
            r@ == self@.text(),
    {
        match self {
            ScanError::DirectoryUnreadable { dir, reason } => reason.clone(),
            ScanError::EntryUnreadable { reason } => reason.clone(),
            ScanError::PathNotText { path } => PATH_NOT_TEXT.to_string(),
            ScanError::UnexpectedEvent => UNEXPECTED_EVENT.to_string(),
        }
    }
}

/// The record that the bytes of the file at `path` give: there is one
/// exactly when the bytes decode as a certificate and the certificate has
/// a subject and an issuer, neither of them empty.
pub open spec fn file_record(data: Seq<u8>, path: PathBuf) -> Option<X509View> {
    match pem_certificate(data) {
        Some(cert) => match record_of(cert, path) {
            Ok(record) => Some(record),
            Err(_) => None,
        },
        None => None,
    }
}

/// What an optional record holds.
pub open spec fn record_view(record: Option<X509>) -> Option<X509View> {
    match record {
        Some(record) => Some(record@),
        None => None,
    }
}

/// Decodes the bytes of the file at `path` and builds its record. Bytes that
/// are no certificate, and a certificate whose subject or issuer is missing
/// or empty, give no record.
pub fn read_certificate(data: &Vec<u8>, path: PathBuf) -> (r: Option<X509>)
    ensures
        record_view(r) == file_record(data@, path),
        r matches Some(record) ==> record@.subject.len() > 0 && record@.issuer.len() > 0,
{
    match decode_pem(data.as_slice()) {
        Ok(cert) => match X509::from(&cert, path) {
            Ok(record) => Some(record),
            Err(_) => None,
        },
        Err(_) => None,
    }
}

/// The line that reports the descent into a directory.
pub open spec fn entering_note(dir: Seq<char>, level: u8) -> Seq<char> {
    ".. Looking for X509s in "@ + dir + " at depth "@ + decimal(level as nat)
}

/// The line that reports a certificate.
pub open spec fn found_note(path: Seq<char>, level: u8) -> Seq<char> {
    ".. Found valid X509: "@ + path + " at depth "@ + decimal(level as nat)
}

/// The line that reports a file that was passed over.
pub open spec fn skipped_note(path: Seq<char>, level: u8) -> Seq<char> {
    ".. Skipped "@ + path + " at depth "@ + decimal(level as nat)
}

fn note(opening: &str, subject: &str, level: u8) -> (r: String)
    ensures
        r@ == opening@ + subject@ + " at depth "@ + decimal(level as nat),
{
    let mut r = String::from_str(opening);
    r.append(subject);
    r.append(" at depth ");
    let depth = decimal_text(level);
    r.append(depth.as_str());
    r
}

/// The lines for one report: the report itself in verbose mode, nothing
/// otherwise.
pub open spec fn notes_if(verbose: bool, line: Seq<char>) -> Seq<Seq<char>> {
    if verbose {
        seq![line]
    } else {
        seq![]
    }
}

/// A directory whose entries the walk is working through.
struct Frame {
    entries: Vec<ScanEntry>,
    next: usize,
    level: u8,
}

/// A directory under way: the entries still to come, and how far below the
/// root the directory lies.
pub struct FrameView {
    pub rest: Seq<ScanEntryView>,
    pub level: u8,
}

impl View for Frame {
    type V = FrameView;

    closed spec fn view(&self) -> FrameView {
        FrameView {
            rest: if self.next <= self.entries@.len() {
                entries_view(self.entries@).skip(self.next as int)
            } else {
                seq![]
            },
            level: self.level,
        }
    }
}

/// What a walk has reached, whatever it waits for.
struct Progress {
    max_depth: u8,
    verbose: bool,
    frames: Vec<Frame>,
    found: Vec<X509>,
}

/// The state of a walk: the bound on its depth, whether it reports, the
/// directories under way from the root (first) to the innermost (last), and
/// the records found so far.
pub struct ProgressView {
    pub max_depth: u8,
    pub verbose: bool,
    pub frames: Seq<FrameView>,
    pub found: Seq<X509View>,
}

impl View for Progress {
    type V = ProgressView;

    closed spec fn view(&self) -> ProgressView {
        ProgressView {
            max_depth: self.max_depth,
            verbose: self.verbose,
            frames: self.frames@.map_values(|frame: Frame| frame@),
            found: records_view(self.found@),
        }
    }
}

/// A scan that waits for the answer to one request.
pub struct DirectoryScanner {
    progress: Progress,
    request: ScanRequest,
}

/// A scan that waits: how far the walk has come, and what it has asked for.
pub struct ScannerView {
    pub progress: ProgressView,
    pub request: ScanRequestView,
}

impl View for DirectoryScanner {
    type V = ScannerView;

    closed spec fn view(&self) -> ScannerView {
        ScannerView { progress: self.progress@, request: self.request@ }
    }
}

/// Where a scan stands after an event.
pub enum ScanStep {
    /// The scan goes on: `scanner` holds the next request.
    Continue { scanner: DirectoryScanner, diagnostics: Vec<String> },
    /// The walk is complete: `records` holds the certificates in the order
    /// in which the walk came upon them.
    Finished { records: Vec<X509>, diagnostics: Vec<String> },
    /// The scan is abandoned and yields no records.
    Failed { error: ScanError, diagnostics: Vec<String> },
}

/// A step as a mathematical value.
pub enum ScanStepView {
    Continue { scanner: ScannerView, diagnostics: Seq<Seq<char>> },
    Finished { records: Seq<X509View>, diagnostics: Seq<Seq<char>> },
    Failed { error: ScanErrorView, diagnostics: Seq<Seq<char>> },
}

impl View for ScanStep {
    type V = ScanStepView;

    open spec fn view(&self) -> ScanStepView {
        match *self {
            ScanStep::Continue { scanner, diagnostics } => ScanStepView::Continue {
                scanner: scanner@,
                diagnostics: texts(diagnostics@),
            },
            ScanStep::Finished { records, diagnostics } => ScanStepView::Finished {
                records: records_view(records@),
                diagnostics: texts(diagnostics@),
            },
            ScanStep::Failed { error, diagnostics } => ScanStepView::Failed {
                error: error@,
                diagnostics: texts(diagnostics@),
            },
        }
    }
}

/// The bound on the depth of a scan: the one given, or the default.
pub open spec fn depth_bound(max_depth: Option<u8>) -> u8 {
    match max_depth {
        Some(bound) => bound,
        None => DEFAULT_MAX_DEPTH,
    }
}

/// How much of a walk is left at most: one for each directory under way and
/// one for each entry still to come.
pub open spec fn weight(frames: Seq<FrameView>) -> nat
    decreases frames.len(),
{
    if frames.len() == 0 {
        0
    } else {
        weight(frames.drop_last()) + 1 + frames.last().rest.len()
    }
}

/// A further directory under way adds one to the weight for itself and one for
/// each of its entries.
pub proof fn lemma_weight_push(frames: Seq<FrameView>, frame: FrameView)
    ensures
        weight(frames.push(frame)) == weight(frames) + 1 + frame.rest.len(),
{
    assert(frames.push(frame).drop_last() =~= frames);
}

/// The walk from a given state up to its next request, its completion or
/// its failure. `notes` are the lines already due.
///
/// The innermost directory under way yields its next entry. A file is asked
/// for. A directory is descended into while the bound on the depth allows
/// it, which takes its path as text; beyond the bound it is passed over as
/// if it were empty. An entry that could not be enumerated ends the scan. A
/// directory without further entries is left, and the walk is complete when
/// the root is left.
pub open spec fn walk(p: ProgressView, notes: Seq<Seq<char>>) -> ScanStepView
    decreases weight(p.frames),
{
    if p.frames.len() == 0 {
        ScanStepView::Finished { records: p.found, diagnostics: notes }
    } else {
        let top = p.frames.last();
        let below = p.frames.drop_last();
        if top.rest.len() == 0 {
            walk(ProgressView { frames: below, ..p }, notes)
        } else {
            let rest = FrameView { rest: top.rest.drop_first(), level: top.level };
            let onward = ProgressView { frames: below.push(rest), ..p };
            proof {
                lemma_weight_push(below, rest);
            }
            match top.rest.first() {
                ScanEntryView::Unreadable(reason) => ScanStepView::Failed {
                    error: ScanErrorView::EntryUnreadable { reason },
                    diagnostics: notes,
                },
                ScanEntryView::File(file) => ScanStepView::Continue {
                    scanner: ScannerView {
                        progress: onward,
                        request: ScanRequestView::ReadFile { file, level: top.level },
                    },
                    diagnostics: notes,
                },
                ScanEntryView::Directory(path) => if top.level < p.max_depth {
                    match path_utf8(path) {
                        Some(dir) => ScanStepView::Continue {
                            scanner: ScannerView {
                                progress: onward,
                                request: ScanRequestView::ListDirectory {
                                    dir,
                                    level: (top.level + 1) as u8,
                                },
                            },
                            diagnostics: notes + notes_if(
                                p.verbose,
                                entering_note(dir, (top.level + 1) as u8),
                            ),
                        },
                        None => ScanStepView::Failed {
                            error: ScanErrorView::PathNotText { path },
                            diagnostics: notes,
                        },
                    }
                } else {
                    walk(onward, notes)
                },
            }
        }
    }
}

/// The start of a scan of `root`: the root's listing is asked for, whatever
/// the bound on the depth.
pub open spec fn start_view(root: Seq<char>, max_depth: Option<u8>, verbose: bool) -> ScanStepView {
    ScanStepView::Continue {
        scanner: ScannerView {
            progress: ProgressView {
                max_depth: depth_bound(max_depth),
                verbose,
                frames: seq![],
                found: seq![],
            },
            request: ScanRequestView::ListDirectory { dir: root, level: 0 },
        },
        diagnostics: notes_if(verbose, entering_note(root, 0)),
    }
}

/// Where a scan stands after the event `e` has answered its request.
///
/// A listing makes its directory the innermost one under way. A listing
/// that failed ends the scan. The bytes of a file add the file's record to
/// those found where they give one; a file that gives none, or that could
/// not be read, is passed over. After a listing and after a file the walk
/// goes on. An event that does not answer the pending request ends the scan.
pub open spec fn step_view(s: ScannerView, e: ScanEventView) -> ScanStepView {
    let p = s.progress;
    match (s.request, e) {
        (ScanRequestView::ListDirectory { dir, level }, ScanEventView::Listed(entries)) => walk(
            ProgressView { frames: p.frames.push(FrameView { rest: entries, level }), ..p },
            seq![],
        ),
        (
            ScanRequestView::ListDirectory { dir, level },
            ScanEventView::ListingFailed(reason),
        ) => ScanStepView::Failed {
            error: ScanErrorView::DirectoryUnreadable { dir, reason },
            diagnostics: seq![],
        },
        (ScanRequestView::ReadFile { file, level }, ScanEventView::Contents(data)) => {
            match file_record(data, file) {
                Some(record) => walk(
                    ProgressView { found: p.found.push(record), ..p },
                    notes_if(p.verbose, found_note(shown_path(file), level)),
                ),
                None => walk(p, notes_if(p.verbose, skipped_note(shown_path(file), level))),
            }
        },
        (ScanRequestView::ReadFile { file, level }, ScanEventView::ContentsUnreadable) => walk(
            p,
            notes_if(p.verbose, skipped_note(shown_path(file), level)),
        ),
        _ => ScanStepView::Failed { error: ScanErrorView::UnexpectedEvent, diagnostics: seq![] },
    }
}

fn no_notes() -> (r: Vec<String>)
    ensures
        texts(r@) == Seq::<Seq<char>>::empty(),
{
    let r: Vec<String> = Vec::new();
    assert(texts(r@) =~= Seq::<Seq<char>>::empty());
    r
}

fn notes_for(verbose: bool, opening: &str, subject: &str, level: u8) -> (r: Vec<String>)
    ensures
        texts(r@) == notes_if(
            verbose,
            opening@ + subject@ + " at depth "@ + decimal(level as nat),
        ),
{
    let mut r: Vec<String> = Vec::new();
    if verbose {
        r.push(note(opening, subject, level));
    }
    assert(texts(r@) =~= notes_if(
        verbose,
        opening@ + subject@ + " at depth "@ + decimal(level as nat),
    ));
    r
}

fn duplicate(entry: &ScanEntry) -> (r: ScanEntry)
    ensures
        r@ == entry@,
{
    match entry {
        ScanEntry::File(path) => ScanEntry::File(path.clone()),
        ScanEntry::Directory(path) => ScanEntry::Directory(path.clone()),
        ScanEntry::Unreadable(reason) => ScanEntry::Unreadable(reason.clone()),
    }
}

fn go_on(progress: Progress, notes: Vec<String>) -> (r: ScanStep)
    requires
        in_order(progress@.frames, progress@.max_depth),
    ensures
        r@ == walk(progress@, texts(notes@)),
{
    let ghost goal = walk(progress@, texts(notes@));
    proof {
        lemma_walk(progress@, texts(notes@));
    }
    let Progress { max_depth, verbose, frames, found } = progress;
    let mut frames = frames;
    let mut due = notes;
    loop
        invariant
            goal == walk(progress@, texts(notes@)),
            orderly_step(goal),
            walk(
                ProgressView {
                    max_depth,
                    verbose,
                    frames: frames@.map_values(|frame: Frame| frame@),
                    found: records_view(found@),
                },
                texts(due@),
            ) == goal,
        decreases weight(frames@.map_values(|frame: Frame| frame@)),
    {
        let ghost before = frames@.map_values(|frame: Frame| frame@);
        let ghost here = ProgressView {
            max_depth,
            verbose,
            frames: before,
            found: records_view(found@),
        };
        let top = match frames.pop() {
            Some(top) => top,
            None => {
                assert(before.len() == 0);
                return ScanStep::Finished { records: found, diagnostics: due };
            },
        };
        assert(frames@.map_values(|frame: Frame| frame@) =~= before.drop_last());
        assert(top@ == before.last());
        if top.next < top.entries.len() {
            let entry = duplicate(&top.entries[top.next]);
            let level = top.level;
            let rest = Frame { entries: top.entries, next: top.next + 1, level };
            assert(rest@.rest =~= top@.rest.drop_first());
            assert(entry@ == top@.rest.first());
            frames.push(rest);
            let ghost onward = ProgressView {
                frames: before.drop_last().push(
                    FrameView { rest: top@.rest.drop_first(), level },
                ),
                ..here
            };
            assert(frames@.map_values(|frame: Frame| frame@) =~= onward.frames);
            proof {
                lemma_weight_push(
                    before.drop_last(),
                    FrameView { rest: top@.rest.drop_first(), level },
                );
            }
            match entry {
                ScanEntry::Unreadable(reason) => {
                    return ScanStep::Failed {
                        error: ScanError::EntryUnreadable { reason },
                        diagnostics: due,
                    };
                },
                ScanEntry::File(file) => {
                    let progress = Progress { max_depth, verbose, frames, found };
                    assert(progress@ == onward);
                    assert(goal == ScanStepView::Continue {
                        scanner: ScannerView {
                            progress: onward,
                            request: ScanRequestView::ReadFile { file, level },
                        },
                        diagnostics: texts(due@),
                    });
                    let scanner = DirectoryScanner {
                        progress,
                        request: ScanRequest::ReadFile { file, level },
                    };
                    return ScanStep::Continue { scanner, diagnostics: due };
                },
                ScanEntry::Directory(path) => {
                    if level < max_depth {
                        match path_text(&path) {
                            Some(dir) => {
                                let ghost said = texts(due@);
                                if verbose {
                                    due.push(
                                        note(".. Looking for X509s in ", dir.as_str(), level + 1),
                                    );
                                }
                                assert(texts(due@) =~= said + notes_if(
                                    verbose,
                                    entering_note(dir@, (level + 1) as u8),
                                ));
                                let progress = Progress { max_depth, verbose, frames, found };
                                assert(progress@ == onward);
                                assert(goal == ScanStepView::Continue {
                                    scanner: ScannerView {
                                        progress: onward,
                                        request: ScanRequestView::ListDirectory {
                                            dir: dir@,
                                            level: (level + 1) as u8,
                                        },
                                    },
                                    diagnostics: texts(due@),
                                });
                                let scanner = DirectoryScanner {
                                    progress,
                                    request: ScanRequest::ListDirectory { dir, level: level + 1 },
                                };
                                return ScanStep::Continue { scanner, diagnostics: due };
                            },
                            None => {
                                return ScanStep::Failed {
                                    error: ScanError::PathNotText { path },
                                    diagnostics: due,
                                };
                            },
                        }
                    }
                },
            }
        } else {
            assert(top@.rest.len() == 0);
        }
    }
}

impl DirectoryScanner {
    /// Every scan is orderly.
    #[verifier::type_invariant]
    spec fn is_orderly(self) -> bool {
        orderly(self@)
    }

    /// Begins a scan of the directory `root`, which descends at most
    /// `max_depth` levels below it, or `DEFAULT_MAX_DEPTH` where no bound is
    /// given. In verbose mode the scan reports each directory it enters and
    /// each file it has dealt with.
    pub fn start(root: String, max_depth: Option<u8>, verbose: bool) -> (r: ScanStep)
        ensures
            r@ == start_view(root@, max_depth, verbose),
            orderly_step(r@),
    {
        let bound = match max_depth {
            Some(bound) => bound,
            None => DEFAULT_MAX_DEPTH,
        };
        let diagnostics = notes_for(verbose, ".. Looking for X509s in ", root.as_str(), 0);
        let progress = Progress {
            max_depth: bound,
            verbose,
            frames: Vec::new(),
            found: Vec::new(),
        };
        assert(progress@.frames =~= seq![]);
        assert(progress@.found =~= seq![]);
        ScanStep::Continue {
            scanner: DirectoryScanner {
                progress,
                request: ScanRequest::ListDirectory { dir: root, level: 0 },
            },
            diagnostics,
        }
    }

    /// What the scan waits for: the listing of a directory that lies no
    /// deeper below the root than the bound allows, or a file of a directory
    /// under way.
    pub fn request(&self) -> (r: &ScanRequest)
        ensures
            r@ == self@.request,
            orderly(self@),
    {
        proof {
            use_type_invariant(self);
        }
        &self.request
    }

    /// Takes the answer to the pending request and moves the scan on.
    pub fn step(self, event: ScanEvent) -> (r: ScanStep)
        ensures
            r@ == step_view(self@, event@),
            orderly(self@),
            orderly_step(r@),
    {
        proof {
            use_type_invariant(&self);
            lemma_step_keeps_order(self@, event@);
        }
        let DirectoryScanner { progress, request } = self;
        let ghost p = progress@;
        let Progress { max_depth, verbose, frames, found } = progress;
        let mut frames = frames;
        let mut found = found;
        match request {
            ScanRequest::ListDirectory { dir, level } => match event {
                ScanEvent::Listed(entries) => {
                    let frame = Frame { entries, next: 0, level };
                    assert(frame@ == FrameView { rest: entries_view(entries@), level }) by {
                        assert(frame@.rest =~= entries_view(entries@));
                    }
                    frames.push(frame);
                    let onward = Progress { max_depth, verbose, frames, found };
                    assert(onward@ == ProgressView { frames: p.frames.push(frame@), ..p }) by {
                        assert(onward@.frames =~= p.frames.push(frame@));
                    }
                    assert(in_order(onward@.frames, max_depth)) by {
                        assert forall|i: int| 0 <= i < onward@.frames.len() implies (
                        #[trigger] onward@.frames[i]).level == i by {
                            if i < p.frames.len() {
                                assert(onward@.frames[i] == p.frames[i]);
                            }
                        }
                    }
                    go_on(onward, no_notes())
                },
                ScanEvent::ListingFailed(reason) => ScanStep::Failed {
                    error: ScanError::DirectoryUnreadable { dir, reason },
                    diagnostics: no_notes(),
                },
                _ => ScanStep::Failed {
                    error: ScanError::UnexpectedEvent,
                    diagnostics: no_notes(),
                },
            },
            ScanRequest::ReadFile { file, level } => match event {
                ScanEvent::Contents(data) => {
                    let shown = show_path(&file);
                    match read_certificate(&data, file) {
                        Some(record) => {
                            found.push(record);
                            let onward = Progress { max_depth, verbose, frames, found };
                            assert(onward@ == ProgressView {
                                found: p.found.push(record@),
                                ..p
                            }) by {
                                assert(onward@.found =~= p.found.push(record@));
                            }
                            go_on(
                                onward,
                                notes_for(verbose, ".. Found valid X509: ", shown.as_str(), level),
                            )
                        },
                        None => go_on(
                            Progress { max_depth, verbose, frames, found },
                            notes_for(verbose, ".. Skipped ", shown.as_str(), level),
                        ),
                    }
                },
                ScanEvent::ContentsUnreadable => {
                    let shown = show_path(&file);
                    go_on(
                        Progress { max_depth, verbose, frames, found },
                        notes_for(verbose, ".. Skipped ", shown.as_str(), level),
                    )
                },
                _ => ScanStep::Failed {
                    error: ScanError::UnexpectedEvent,
                    diagnostics: no_notes(),
                },
            },
        }
    }
}

/// The records that a scan holds at a step; an abandoned scan holds none.
pub open spec fn records_at(step: ScanStepView) -> Seq<X509View> {
    match step {
        ScanStepView::Continue { scanner, diagnostics } => scanner.progress.found,
        ScanStepView::Finished { records, diagnostics } => records,
        ScanStepView::Failed { error, diagnostics } => seq![],
    }
}

/// The lines that a step hands out.
pub open spec fn lines_at(step: ScanStepView) -> Seq<Seq<char>> {
    match step {
        ScanStepView::Continue { scanner, diagnostics } => diagnostics,
        ScanStepView::Finished { records, diagnostics } => diagnostics,
        ScanStepView::Failed { error, diagnostics } => diagnostics,
    }
}

/// The records that an event adds: the record of the file that was asked
/// for, where the event holds its bytes and they give one.
pub open spec fn gain(request: ScanRequestView, e: ScanEventView) -> Seq<X509View> {
    match (request, e) {
        (ScanRequestView::ReadFile { file, level }, ScanEventView::Contents(data)) => {
            match file_record(data, file) {
                Some(record) => seq![record],
                None => seq![],
            }
        },
        _ => seq![],
    }
}

/// The directories under way lie one below the other from the root down,
/// none deeper than the bound allows, and the request is for the directory
/// below the innermost one or for a file in the innermost one.
pub open spec fn orderly(s: ScannerView) -> bool {
    &&& in_order(s.progress.frames, s.progress.max_depth)
    &&& match s.request {
        ScanRequestView::ListDirectory { dir, level } => level == s.progress.frames.len()
            && level <= s.progress.max_depth,
        ScanRequestView::ReadFile { file, level } => level + 1 == s.progress.frames.len(),
    }
}

/// The directories under way lie one below the other from the root down,
/// none deeper than the bound allows.
pub open spec fn in_order(frames: Seq<FrameView>, max_depth: u8) -> bool {
    &&& forall|i: int| 0 <= i < frames.len() ==> (#[trigger] frames[i]).level == i
    &&& frames.len() <= max_depth + 1
}

/// A step is orderly where the scan that goes on from it is.
pub open spec fn orderly_step(step: ScanStepView) -> bool {
    step matches ScanStepView::Continue { scanner, diagnostics } ==> orderly(scanner)
}

/// The walk itself finds nothing and changes no setting; it keeps the
/// directories under way in order; and it reports only in verbose mode.
pub proof fn lemma_walk(p: ProgressView, notes: Seq<Seq<char>>)
    ensures
        !(walk(p, notes) is Failed) ==> records_at(walk(p, notes)) == p.found,
        walk(p, notes) matches ScanStepView::Continue { scanner, diagnostics } ==> {
            &&& scanner.progress.max_depth == p.max_depth
            &&& scanner.progress.verbose == p.verbose
        },
        in_order(p.frames, p.max_depth) ==> orderly_step(walk(p, notes)),
        !p.verbose ==> lines_at(walk(p, notes)) == notes,
    decreases weight(p.frames),
{
    if p.frames.len() > 0 {
        let top = p.frames.last();
        let below = p.frames.drop_last();
        if top.rest.len() == 0 {
            lemma_walk(ProgressView { frames: below, ..p }, notes);
        } else {
            let rest = FrameView { rest: top.rest.drop_first(), level: top.level };
            let onward = ProgressView { frames: below.push(rest), ..p };
            lemma_weight_push(below, rest);
            assert(onward.frames.len() == p.frames.len());
            assert forall|i: int| 0 <= i < onward.frames.len() implies (
            #[trigger] onward.frames[i]).level == p.frames[i].level by {}
            match top.rest.first() {
                ScanEntryView::Directory(path) => {
                    if top.level < p.max_depth {
                        if !p.verbose {
                            assert(notes + Seq::<Seq<char>>::empty() =~= notes);
                        }
                    } else {
                        lemma_walk(onward, notes);
                    }
                },
                _ => {},
            }
        }
    }
}

/// A scan starts in order, for every root and every bound.
pub proof fn lemma_start_is_orderly(root: Seq<char>, max_depth: Option<u8>, verbose: bool)
    ensures
        orderly_step(start_view(root, max_depth, verbose)),
{
}

/// An orderly scan stays orderly: no event makes it ask for a directory
/// that lies deeper below the root than the bound allows.
pub proof fn lemma_step_keeps_order(s: ScannerView, e: ScanEventView)
    requires
        orderly(s),
    ensures
        orderly_step(step_view(s, e)),
        step_view(s, e) matches ScanStepView::Continue { scanner, diagnostics } ==> {
            &&& scanner.progress.max_depth == s.progress.max_depth
            &&& scanner.request matches ScanRequestView::ListDirectory { dir, level } ==> level
                <= s.progress.max_depth
        },
{
    let p = s.progress;
    match (s.request, e) {
        (ScanRequestView::ListDirectory { dir, level }, ScanEventView::Listed(entries)) => {
            let onward = ProgressView {
                frames: p.frames.push(FrameView { rest: entries, level }),
                ..p
            };
            lemma_walk(onward, seq![]);
        },
        (ScanRequestView::ReadFile { file, level }, ScanEventView::Contents(data)) => {
            match file_record(data, file) {
                Some(record) => {
                    let onward = ProgressView { found: p.found.push(record), ..p };
                    let notes = notes_if(p.verbose, found_note(shown_path(file), level));
                    lemma_walk(onward, notes);
                },
                None => {
                    let notes = notes_if(p.verbose, skipped_note(shown_path(file), level));
                    lemma_walk(p, notes);
                },
            }
        },
        (ScanRequestView::ReadFile { file, level }, ScanEventView::ContentsUnreadable) => {
            let notes = notes_if(p.verbose, skipped_note(shown_path(file), level));
            lemma_walk(p, notes);
        },
        _ => {},
    }
}

/// The record of a file has a subject and an issuer that are not empty, and
/// lies at the file's path.
pub proof fn lemma_file_records_are_named(data: Seq<u8>, path: PathBuf)
    ensures
        file_record(data, path) matches Some(record) ==> record.subject.len() > 0
            && record.issuer.len() > 0 && record.path == path,
{
}

/// Every record comes from a file, and from one that gave it: an event
/// that does not end the scan adds to the records exactly what it gains,
/// which is at most one record, and only the record of the file that was
/// asked for, decoded from the bytes that the event holds, with a subject
/// and an issuer that are not empty. An event that holds no bytes, or bytes
/// that give no record, adds nothing.
pub proof fn lemma_records_come_from_files(s: ScannerView, e: ScanEventView)
    ensures
        !(step_view(s, e) is Failed) ==> records_at(step_view(s, e)) == s.progress.found + gain(
            s.request,
            e,
        ),
        gain(s.request, e).len() <= 1,
        forall|i: int|
            0 <= i < gain(s.request, e).len() ==> {
                &&& s.request is ReadFile
                &&& e is Contents
                &&& file_record(e->Contents_0, s.request->ReadFile_file) == Some(
                    #[trigger] gain(s.request, e)[i],
                )
                &&& gain(s.request, e)[i].subject.len() > 0
                &&& gain(s.request, e)[i].issuer.len() > 0
            },
{
    let p = s.progress;
    match (s.request, e) {
        (ScanRequestView::ListDirectory { dir, level }, ScanEventView::Listed(entries)) => {
            lemma_walk(
                ProgressView { frames: p.frames.push(FrameView { rest: entries, level }), ..p },
                seq![],
            );
            assert(p.found + gain(s.request, e) =~= p.found);
        },
        (ScanRequestView::ReadFile { file, level }, ScanEventView::Contents(data)) => {
            match file_record(data, file) {
                Some(record) => {
                    lemma_walk(
                        ProgressView { found: p.found.push(record), ..p },
                        notes_if(p.verbose, found_note(shown_path(file), level)),
                    );
                    assert(p.found + gain(s.request, e) =~= p.found.push(record));
                },
                None => {
                    lemma_walk(p, notes_if(p.verbose, skipped_note(shown_path(file), level)));
                    assert(p.found + gain(s.request, e) =~= p.found);
                },
            }
        },
        (ScanRequestView::ReadFile { file, level }, ScanEventView::ContentsUnreadable) => {
            lemma_walk(p, notes_if(p.verbose, skipped_note(shown_path(file), level)));
            assert(p.found + gain(s.request, e) =~= p.found);
        },
        _ => {},
    }
}

/// The line that reports the file of a request once the event `e` has
/// answered it, in verbose mode: that its certificate was found, or that it
/// was passed over. Other requests and other events have no such line.
pub open spec fn file_lines(s: ScannerView, e: ScanEventView) -> Seq<Seq<char>> {
    match (s.request, e) {
        (ScanRequestView::ReadFile { file, level }, ScanEventView::Contents(data)) => notes_if(
            s.progress.verbose,
            if file_record(data, file) is Some {
                found_note(shown_path(file), level)
            } else {
                skipped_note(shown_path(file), level)
            },
        ),
        (ScanRequestView::ReadFile { file, level }, ScanEventView::ContentsUnreadable) => notes_if(
            s.progress.verbose,
            skipped_note(shown_path(file), level),
        ),
        _ => seq![],
    }
}

/// The line that reports the directory that a step asks for, in verbose
/// mode. A step that asks for a file, or for nothing, has no such line.
pub open spec fn descent_lines(step: ScanStepView) -> Seq<Seq<char>> {
    match step {
        ScanStepView::Continue { scanner, diagnostics } => match scanner.request {
            ScanRequestView::ListDirectory { dir, level } => notes_if(
                scanner.progress.verbose,
                entering_note(dir, level),
            ),
            ScanRequestView::ReadFile { file, level } => seq![],
        },
        _ => seq![],
    }
}

/// The walk adds to the lines that are due the report of the directory it
/// descends into, and no other line.
pub proof fn lemma_walk_reports_the_descent(p: ProgressView, notes: Seq<Seq<char>>)
    ensures
        lines_at(walk(p, notes)) == notes + descent_lines(walk(p, notes)),
    decreases weight(p.frames),
{
    if p.frames.len() > 0 {
        let top = p.frames.last();
        let below = p.frames.drop_last();
        if top.rest.len() == 0 {
            lemma_walk_reports_the_descent(ProgressView { frames: below, ..p }, notes);
        } else {
            let rest = FrameView { rest: top.rest.drop_first(), level: top.level };
            lemma_weight_push(below, rest);
            match top.rest.first() {
                ScanEntryView::Directory(path) => {
                    if top.level >= p.max_depth {
                        lemma_walk_reports_the_descent(
                            ProgressView { frames: below.push(rest), ..p },
                            notes,
                        );
                    }
                },
                _ => {},
            }
        }
    }
    assert(notes + Seq::<Seq<char>>::empty() =~= notes);
}

/// A verbose scan reports each file it has dealt with and each directory it
/// enters, each with one line, and nothing else: the lines of a step are
/// the report of the file that the event answered for, if it did, and then
/// the report of the directory that the step asks for, if it does.
pub proof fn lemma_one_line_each(s: ScannerView, e: ScanEventView)
    ensures
        !(step_view(s, e) is Failed) ==> lines_at(step_view(s, e)) == file_lines(s, e)
            + descent_lines(step_view(s, e)),
        file_lines(s, e).len() <= 1,
        descent_lines(step_view(s, e)).len() <= 1,
{
    let p = s.progress;
    match (s.request, e) {
        (ScanRequestView::ListDirectory { dir, level }, ScanEventView::Listed(entries)) => {
            lemma_walk_reports_the_descent(
                ProgressView { frames: p.frames.push(FrameView { rest: entries, level }), ..p },
                seq![],
            );
        },
        (ScanRequestView::ReadFile { file, level }, ScanEventView::Contents(data)) => {
            match file_record(data, file) {
                Some(record) => {
                    lemma_walk_reports_the_descent(
                        ProgressView { found: p.found.push(record), ..p },
                        notes_if(p.verbose, found_note(shown_path(file), level)),
                    );
                },
                None => {
                    lemma_walk_reports_the_descent(
                        p,
                        notes_if(p.verbose, skipped_note(shown_path(file), level)),
                    );
                },
            }
        },
        (ScanRequestView::ReadFile { file, level }, ScanEventView::ContentsUnreadable) => {
            lemma_walk_reports_the_descent(
                p,
                notes_if(p.verbose, skipped_note(shown_path(file), level)),
            );
        },
        _ => {},
    }
}

/// A scan that is not verbose reports nothing, at its start or at any event.
pub proof fn lemma_silent_unless_verbose(
    root: Seq<char>,
    max_depth: Option<u8>,
    s: ScannerView,
    e: ScanEventView,
)
    ensures
        lines_at(start_view(root, max_depth, false)).len() == 0,
        !s.progress.verbose ==> lines_at(step_view(s, e)).len() == 0,
{
    let p = s.progress;
    match (s.request, e) {
        (ScanRequestView::ListDirectory { dir, level }, ScanEventView::Listed(entries)) => {
            lemma_walk(
                ProgressView { frames: p.frames.push(FrameView { rest: entries, level }), ..p },
                seq![],
            );
        },
        (ScanRequestView::ReadFile { file, level }, ScanEventView::Contents(data)) => {
            match file_record(data, file) {
                Some(record) => {
                    lemma_walk(
                        ProgressView { found: p.found.push(record), ..p },
                        notes_if(p.verbose, found_note(shown_path(file), level)),
                    );
                },
                None => {
                    lemma_walk(p, notes_if(p.verbose, skipped_note(shown_path(file), level)));
                },
            }
        },
        (ScanRequestView::ReadFile { file, level }, ScanEventView::ContentsUnreadable) => {
            lemma_walk(p, notes_if(p.verbose, skipped_note(shown_path(file), level)));
        },
        _ => {},
    }
}

/// The scan of an empty directory is complete at once, with no record and
/// no error, whatever the bound.
pub proof fn lemma_empty_root(root: Seq<char>, max_depth: Option<u8>, verbose: bool)
    ensures
        start_view(root, max_depth, verbose) matches ScanStepView::Continue {
            scanner,
            diagnostics,
        } && step_view(scanner, ScanEventView::Listed(seq![])) == (ScanStepView::Finished {
            records: seq![],
            diagnostics: seq![],
        }),
{
    let scanner = start_view(root, max_depth, verbose)->Continue_scanner;
    let p = scanner.progress;
    let frame = FrameView { rest: seq![], level: 0 };
    let listed = ProgressView { frames: p.frames.push(frame), ..p };
    assert(listed.frames.drop_last() =~= p.frames);
    reveal_with_fuel(walk, 3);
}

} // verus!
