//! The scan as a whole: what the scan of a filesystem yields, and the proof
//! that a scanner whose requests that filesystem answers yields exactly it.

use crate::decoder::issuer_common_name_of;
use crate::decoder::pem_certificate;
use crate::decoder::subject_common_name_of;
use crate::path::path_utf8;
use crate::path::shown_path;
use crate::scanner::depth_bound;
use crate::scanner::file_record;
use crate::scanner::found_note;
use crate::scanner::notes_if;
use crate::scanner::skipped_note;
use crate::scanner::start_view;
use crate::scanner::step_view;
use crate::scanner::walk;
use crate::scanner::FrameView;
use crate::scanner::ProgressView;
use crate::scanner::ScanEntryView;
use crate::scanner::ScanErrorView;
use crate::scanner::ScanEventView;
use crate::scanner::ScanRequestView;
use crate::scanner::ScanStepView;
use crate::scanner::ScannerView;
use crate::x509::X509View;
use std::path::PathBuf;
use vstd::prelude::*;
use x509_certificate::X509Certificate;

verus! {

/// A filesystem as a scan meets it: for each directory its entries in the
/// order of their enumeration, or why it cannot be opened; for each file its
/// bytes, where it can be read.
pub struct Filesystem {
    pub listing: spec_fn(Seq<char>) -> Result<Seq<ScanEntryView>, Seq<char>>,
    pub contents: spec_fn(PathBuf) -> Option<Seq<u8>>,
}

impl Filesystem {
    /// The event with which the filesystem answers a request.
    pub open spec fn answer(self, request: ScanRequestView) -> ScanEventView {
        match request {
            ScanRequestView::ListDirectory { dir, level } => match (self.listing)(dir) {
                Ok(entries) => ScanEventView::Listed(entries),
                Err(reason) => ScanEventView::ListingFailed(reason),
            },
            ScanRequestView::ReadFile { file, level } => match (self.contents)(file) {
                Some(data) => ScanEventView::Contents(data),
                None => ScanEventView::ContentsUnreadable,
            },
        }
    }

    /// The records that one file gives: its own, where it can be read, its
    /// bytes decode as a certificate and the certificate has a subject and
    /// an issuer that are not empty; none otherwise.
    pub open spec fn file_records(self, file: PathBuf) -> Seq<X509View> {
        match (self.contents)(file) {
            Some(data) => match file_record(data, file) {
                Some(record) => seq![record],
                None => seq![],
            },
            None => seq![],
        }
    }

    /// What the scan of the directory `dir`, which lies `level` levels below
    /// the root, yields: the records of its entries, or the error of a
    /// directory that cannot be opened.
    pub open spec fn scan_directory(self, dir: Seq<char>, level: u8, max_depth: u8) -> Result<
        Seq<X509View>,
        ScanErrorView,
    >
        decreases max_depth - level, 1int, 0nat,
    {
        match (self.listing)(dir) {
            Ok(entries) => self.scan_entries(entries, level, max_depth),
            Err(reason) => Err(ScanErrorView::DirectoryUnreadable { dir, reason }),
        }
    }

    /// What the scan of some entries of a directory `level` levels below the
    /// root yields: the records of the first entry, then those of the
    /// others, in that order; or the first error on the way.
    ///
    /// A file gives its records. A directory gives what its own scan
    /// yields, one level further down, where the bound on the depth allows
    /// the descent, and nothing where it does not; the descent takes the
    /// directory's path as text. An entry that could not be enumerated is an
    /// error.
    pub open spec fn scan_entries(
        self,
        entries: Seq<ScanEntryView>,
        level: u8,
        max_depth: u8,
    ) -> Result<Seq<X509View>, ScanErrorView>
        decreases max_depth - level, 0int, entries.len(),
    {
        if entries.len() == 0 {
            Ok(seq![])
        } else {
            let first = match entries.first() {
                ScanEntryView::File(file) => Ok(self.file_records(file)),
                ScanEntryView::Directory(path) => if level < max_depth {
                    match path_utf8(path) {
                        Some(dir) => self.scan_directory(dir, (level + 1) as u8, max_depth),
                        None => Err(ScanErrorView::PathNotText { path }),
                    }
                } else {
                    Ok(seq![])
                },
                ScanEntryView::Unreadable(reason) => Err(
                    ScanErrorView::EntryUnreadable { reason },
                ),
            };
            match first {
                Ok(records) => match self.scan_entries(entries.drop_first(), level, max_depth) {
                    Ok(others) => Ok(records + others),
                    Err(e) => Err(e),
                },
                Err(e) => Err(e),
            }
        }
    }

    /// Where a scan stands after the filesystem has answered up to `fuel`
    /// of its requests, one after the other.
    pub open spec fn run(self, step: ScanStepView, fuel: nat) -> ScanStepView
        decreases fuel,
    {
        if fuel == 0 {
            step
        } else {
            match step {
                ScanStepView::Continue { scanner, diagnostics } => self.run(
                    step_view(scanner, self.answer(scanner.request)),
                    (fuel - 1) as nat,
                ),
                _ => step,
            }
        }
    }
}

/// How a scan has ended, if it has.
pub open spec fn outcome(step: ScanStepView) -> Option<Result<Seq<X509View>, ScanErrorView>> {
    match step {
        ScanStepView::Continue { scanner, diagnostics } => None,
        ScanStepView::Finished { records, diagnostics } => Some(Ok(records)),
        ScanStepView::Failed { error, diagnostics } => Some(Err(error)),
    }
}

/// Answering requests one after the other is the same as answering some of
/// them first and the others then.
pub proof fn lemma_run_in_two(fs: Filesystem, step: ScanStepView, first: nat, then: nat)
    ensures
        fs.run(step, first + then) == fs.run(fs.run(step, first), then),
    decreases first,
{
    if first > 0 {
        match step {
            ScanStepView::Continue { scanner, diagnostics } => {
                lemma_run_in_two(
                    fs,
                    step_view(scanner, fs.answer(scanner.request)),
                    (first - 1) as nat,
                    then,
                );
            },
            _ => {
                assert(fs.run(step, then) == step) by {
                    reveal_with_fuel(Filesystem::run, 1);
                }
            },
        }
    }
}

/// A scan that has ended stays as it is.
pub proof fn lemma_run_rests(fs: Filesystem, step: ScanStepView, fuel: nat)
    requires
        outcome(step) is Some,
    ensures
        fs.run(step, fuel) == step,
{
}

/// The walk through some entries of the innermost directory under way.
/// From a state whose innermost directory still has the entries `entries`
/// and then `tail` to come, the scanner gets, after a number of answers,
/// to the state in which only `tail` is to come and the records of
/// `entries` are found; or it fails with the error of their scan.
proof fn lemma_entries(
    fs: Filesystem,
    p: ProgressView,
    below: Seq<FrameView>,
    level: u8,
    entries: Seq<ScanEntryView>,
    tail: Seq<ScanEntryView>,
    notes: Seq<Seq<char>>,
) -> (w: (nat, Seq<Seq<char>>))
    requires
        p.frames == below.push(FrameView { rest: entries + tail, level }),
    ensures
        match fs.scan_entries(entries, level, p.max_depth) {
            Ok(records) => fs.run(walk(p, notes), w.0) == walk(
                ProgressView {
                    frames: below.push(FrameView { rest: tail, level }),
                    found: p.found + records,
                    ..p
                },
                w.1,
            ),
            Err(e) => fs.run(walk(p, notes), w.0) == (ScanStepView::Failed {
                error: e,
                diagnostics: w.1,
            }),
        },
    decreases p.max_depth - level, entries.len(), 0nat,
{
    if entries.len() == 0 {
        assert(entries + tail =~= tail);
        assert(p.found + Seq::<X509View>::empty() =~= p.found);
        (0, notes)
    } else {
        let first = entries.first();
        let others = entries.drop_first();
        let onward = ProgressView {
            frames: below.push(FrameView { rest: others + tail, level }),
            ..p
        };
        assert((entries + tail).first() == first);
        assert((entries + tail).drop_first() =~= others + tail);
        assert(p.frames.drop_last() =~= below);
        assert(p.frames.last() == FrameView { rest: entries + tail, level });
        match first {
            ScanEntryView::Unreadable(reason) => (0, notes),
            ScanEntryView::File(file) => {
                let scanner = ScannerView {
                    progress: onward,
                    request: ScanRequestView::ReadFile { file, level },
                };
                let gained = fs.file_records(file);
                let with_file = ProgressView { found: p.found + gained, ..onward };
                let lines = if gained.len() == 1 {
                    notes_if(p.verbose, found_note(shown_path(file), level))
                } else {
                    notes_if(p.verbose, skipped_note(shown_path(file), level))
                };
                assert(walk(p, notes) == ScanStepView::Continue { scanner, diagnostics: notes });
                assert(step_view(scanner, fs.answer(scanner.request)) == walk(with_file, lines))
                    by {
                    if gained.len() == 1 {
                        assert(p.found + gained =~= p.found.push(gained[0]));
                    } else {
                        assert(p.found + gained =~= p.found);
                    }
                }
                let (k, said) = lemma_entries(fs, with_file, below, level, others, tail, lines);
                assert(fs.run(walk(p, notes), k + 1) == fs.run(walk(with_file, lines), k));
                if let Ok(records) = fs.scan_entries(others, level, p.max_depth) {
                    assert(with_file.found + records =~= p.found + (gained + records));
                }
                (k + 1, said)
            },
            ScanEntryView::Directory(path) => {
                if level >= p.max_depth {
                    assert(walk(p, notes) == walk(onward, notes));
                    let (k, said) = lemma_entries(fs, onward, below, level, others, tail, notes);
                    if let Ok(records) = fs.scan_entries(others, level, p.max_depth) {
                        assert(Seq::<X509View>::empty() + records =~= records);
                    }
                    (k, said)
                } else if let Some(dir) = path_utf8(path) {
                    lemma_descent(fs, p, below, level, dir, others, tail, notes)
                } else {
                    (0, notes)
                }
            },
        }
    }
}

/// The walk through a directory entry that is descended into, and through
/// the entries after it: the part of `lemma_entries` for an entry whose
/// path reads `dir`.
proof fn lemma_descent(
    fs: Filesystem,
    p: ProgressView,
    below: Seq<FrameView>,
    level: u8,
    dir: Seq<char>,
    others: Seq<ScanEntryView>,
    tail: Seq<ScanEntryView>,
    notes: Seq<Seq<char>>,
) -> (w: (nat, Seq<Seq<char>>))
    requires
        level < p.max_depth,
        p.frames.len() > 0,
        p.frames.drop_last() == below,
        p.frames.last().level == level,
        p.frames.last().rest.len() > 0,
        p.frames.last().rest.drop_first() == others + tail,
        p.frames.last().rest.first() matches ScanEntryView::Directory(path) && path_utf8(path)
            == Some(dir),
    ensures
        match fs.scan_directory(dir, (level + 1) as u8, p.max_depth) {
            Ok(within) => match fs.scan_entries(others, level, p.max_depth) {
                Ok(records) => fs.run(walk(p, notes), w.0) == walk(
                    ProgressView {
                        frames: below.push(FrameView { rest: tail, level }),
                        found: p.found + (within + records),
                        ..p
                    },
                    w.1,
                ),
                Err(e) => fs.run(walk(p, notes), w.0) == (ScanStepView::Failed {
                    error: e,
                    diagnostics: w.1,
                }),
            },
            Err(e) => fs.run(walk(p, notes), w.0) == (ScanStepView::Failed {
                error: e,
                diagnostics: w.1,
            }),
        },
    decreases p.max_depth - level, others.len(), 1nat,
{
    let deeper = (level + 1) as u8;
    let onward = ProgressView {
        frames: below.push(FrameView { rest: others + tail, level }),
        ..p
    };
    let scanner = ScannerView {
        progress: onward,
        request: ScanRequestView::ListDirectory { dir, level: deeper },
    };
    assert(walk(p, notes) is Continue);
    assert(walk(p, notes)->Continue_scanner == scanner);
    match (fs.listing)(dir) {
        Err(reason) => {
            assert(fs.run(walk(p, notes), 1) == ScanStepView::Failed {
                error: ScanErrorView::DirectoryUnreadable { dir, reason },
                diagnostics: seq![],
            }) by {
                reveal_with_fuel(Filesystem::run, 2);
            }
            (1, seq![])
        },
        Ok(listed) => {
            let entered = ProgressView {
                frames: onward.frames.push(FrameView { rest: listed, level: deeper }),
                ..onward
            };
            assert(fs.run(walk(p, notes), 1) == walk(entered, seq![])) by {
                reveal_with_fuel(Filesystem::run, 2);
            }
            assert(listed + Seq::<ScanEntryView>::empty() =~= listed);
            let (k1, said1) = lemma_entries(
                fs,
                entered,
                onward.frames,
                deeper,
                listed,
                seq![],
                seq![],
            );
            lemma_run_in_two(fs, walk(p, notes), 1, k1);
            match fs.scan_entries(listed, deeper, p.max_depth) {
                Err(e) => (1 + k1, said1),
                Ok(within) => {
                    let exhausted = ProgressView {
                        frames: onward.frames.push(FrameView { rest: seq![], level: deeper }),
                        found: p.found + within,
                        ..onward
                    };
                    let back = ProgressView { found: p.found + within, ..onward };
                    assert(walk(exhausted, said1) == walk(back, said1)) by {
                        assert(exhausted.frames.drop_last() =~= onward.frames);
                        assert(ProgressView { frames: exhausted.frames.drop_last(), ..exhausted }
                            == back);
                    }
                    let (k2, said2) = lemma_entries(fs, back, below, level, others, tail, said1);
                    lemma_run_in_two(fs, walk(p, notes), 1 + k1, k2);
                    if let Ok(records) = fs.scan_entries(others, level, p.max_depth) {
                        assert(back.found + records =~= p.found + (within + records));
                    }
                    (1 + k1 + k2, said2)
                },
            }
        },
    }
}

/// The scanner computes the scan. Let a filesystem answer the requests of
/// a scan of `root`, each with what it holds. Then, after some number
/// `fuel` of answers, the scan has ended, and it has ended as
/// `scan_directory` says: with the records of all certificate files that
/// lie within the bound on the depth, in the order of a depth-first walk,
/// or with the first error on that walk. This holds of every filesystem,
/// also of one whose directories lead back into themselves.
pub proof fn lemma_scanner_computes_the_scan(
    fs: Filesystem,
    root: Seq<char>,
    max_depth: Option<u8>,
    verbose: bool,
) -> (fuel: nat)
    ensures
        outcome(fs.run(start_view(root, max_depth, verbose), fuel)) == Some(
            fs.scan_directory(root, 0, depth_bound(max_depth)),
        ),
{
    let bound = depth_bound(max_depth);
    let start = start_view(root, max_depth, verbose);
    let scanner = start->Continue_scanner;
    let p = scanner.progress;
    match (fs.listing)(root) {
        Err(reason) => {
            assert(fs.run(start, 1) == ScanStepView::Failed {
                error: ScanErrorView::DirectoryUnreadable { dir: root, reason },
                diagnostics: seq![],
            }) by {
                reveal_with_fuel(Filesystem::run, 2);
            }
            1
        },
        Ok(listed) => {
            let entered = ProgressView {
                frames: p.frames.push(FrameView { rest: listed, level: 0 }),
                ..p
            };
            assert(fs.run(start, 1) == walk(entered, seq![])) by {
                reveal_with_fuel(Filesystem::run, 2);
            }
            assert(listed + Seq::<ScanEntryView>::empty() =~= listed);
            let (k, said) = lemma_entries(fs, entered, p.frames, 0, listed, seq![], seq![]);
            lemma_run_in_two(fs, start, 1, k);
            match fs.scan_entries(listed, 0, bound) {
                Err(e) => {},
                Ok(records) => {
                    let exhausted = ProgressView {
                        frames: p.frames.push(FrameView { rest: seq![], level: 0 }),
                        found: p.found + records,
                        ..p
                    };
                    assert(exhausted.frames.drop_last() =~= p.frames);
                    assert(p.found + records =~= records);
                    assert(walk(exhausted, said) == ScanStepView::Finished {
                        records,
                        diagnostics: said,
                    }) by {
                        reveal_with_fuel(walk, 3);
                    }
                },
            }
            1 + k
        },
    }
}

/// However long a filesystem goes on answering, a scan of it ends in one
/// way only: once `fuel` answers have ended it, any number of further
/// answers leaves it as it is.
pub proof fn lemma_scan_ends_once(
    fs: Filesystem,
    root: Seq<char>,
    max_depth: Option<u8>,
    verbose: bool,
    fuel: nat,
    more: nat,
)
    requires
        outcome(fs.run(start_view(root, max_depth, verbose), fuel)) is Some,
    ensures
        fs.run(start_view(root, max_depth, verbose), fuel + more) == fs.run(
            start_view(root, max_depth, verbose),
            fuel,
        ),
{
    let start = start_view(root, max_depth, verbose);
    lemma_run_in_two(fs, start, fuel, more);
    lemma_run_rests(fs, fs.run(start, fuel), more);
}

/// The record is that of a certificate file: the file at its path can be
/// read, its bytes decode as a certificate, and the certificate has the
/// record's subject and the record's issuer as its common names, neither of
/// them empty.
pub open spec fn is_of_a_certificate_file(fs: Filesystem, record: X509View) -> bool {
    exists|data: Seq<u8>, cert: X509Certificate|
        {
            &&& (fs.contents)(record.path) == Some(data)
            &&& #[trigger] pem_certificate(data) == Some(cert)
            &&& #[trigger] subject_common_name_of(cert) == Some(record.subject)
            &&& issuer_common_name_of(cert) == Some(record.issuer)
            &&& record.subject.len() > 0
            &&& record.issuer.len() > 0
            &&& file_record(data, record.path) == Some(record)
        }
}

/// Every record that the scan of some entries yields is that of a
/// certificate file. So no record stands for a file that could not be read
/// or did not decode, or for a certificate whose subject or issuer is
/// missing or empty.
pub proof fn lemma_entries_yield_certificate_files(
    fs: Filesystem,
    entries: Seq<ScanEntryView>,
    level: u8,
    max_depth: u8,
)
    ensures
        fs.scan_entries(entries, level, max_depth) matches Ok(records) ==> forall|i: int|
            0 <= i < records.len() ==> is_of_a_certificate_file(fs, #[trigger] records[i]),
    decreases max_depth - level, entries.len(),
{
    if entries.len() > 0 {
        if let Ok(records) = fs.scan_entries(entries, level, max_depth) {
            lemma_entries_yield_certificate_files(fs, entries.drop_first(), level, max_depth);
            match entries.first() {
                ScanEntryView::File(file) => {
                    let gained = fs.file_records(file);
                    if gained.len() > 0 {
                        let data = (fs.contents)(file)->0;
                        let cert = pem_certificate(data)->0;
                        assert(file_record(data, file) == Some(gained[0]));
                        assert(subject_common_name_of(cert) == Some(gained[0].subject));
                        assert(is_of_a_certificate_file(fs, gained[0]));
                    }
                },
                ScanEntryView::Directory(path) => {
                    if level < max_depth {
                        let dir = path_utf8(path)->0;
                        let deeper = (level + 1) as u8;
                        assert(fs.scan_directory(dir, deeper, max_depth) == fs.scan_entries(
                            (fs.listing)(dir)->Ok_0,
                            deeper,
                            max_depth,
                        ));
                        lemma_entries_yield_certificate_files(
                            fs,
                            (fs.listing)(dir)->Ok_0,
                            deeper,
                            max_depth,
                        );
                    }
                },
                ScanEntryView::Unreadable(reason) => {},
            }
        }
    }
}

/// Every record that a scan yields is that of a certificate file.
pub proof fn lemma_scan_yields_certificate_files(
    fs: Filesystem,
    root: Seq<char>,
    max_depth: Option<u8>,
)
    ensures
        fs.scan_directory(root, 0, depth_bound(max_depth)) matches Ok(records) ==> forall|i: int|
            0 <= i < records.len() ==> is_of_a_certificate_file(fs, #[trigger] records[i]),
{
    if let Ok(listed) = (fs.listing)(root) {
        lemma_entries_yield_certificate_files(fs, listed, 0, depth_bound(max_depth));
    }
}

/// Every record that a scan yields has a subject and an issuer that are
/// not empty.
pub proof fn lemma_records_are_named(fs: Filesystem, root: Seq<char>, max_depth: Option<u8>)
    ensures
        fs.scan_directory(root, 0, depth_bound(max_depth)) matches Ok(records) ==> forall|i: int|
            0 <= i < records.len() ==> (#[trigger] records[i]).subject.len() > 0
                && records[i].issuer.len() > 0,
{
    lemma_scan_yields_certificate_files(fs, root, max_depth);
    if let Ok(records) = fs.scan_directory(root, 0, depth_bound(max_depth)) {
        assert forall|i: int| 0 <= i < records.len() implies (#[trigger] records[i]).subject.len()
            > 0 && records[i].issuer.len() > 0 by {
            assert(is_of_a_certificate_file(fs, records[i]));
        }
    }
}

/// A scan that may not descend at all yields the records of the files of
/// the root itself and opens no other directory: at the bound, a directory
/// counts for nothing, whatever lies in it.
pub proof fn lemma_directories_at_the_bound_count_for_nothing(
    fs: Filesystem,
    path: PathBuf,
    others: Seq<ScanEntryView>,
    level: u8,
)
    ensures
        fs.scan_entries(seq![ScanEntryView::Directory(path)] + others, level, level)
            == fs.scan_entries(others, level, level),
{
    let entries = seq![ScanEntryView::Directory(path)] + others;
    assert(entries.drop_first() =~= others);
    match fs.scan_entries(others, level, level) {
        Ok(records) => {
            assert(Seq::<X509View>::empty() + records =~= records);
        },
        Err(e) => {},
    }
}

} // verus!
