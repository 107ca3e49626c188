use pki_explorer::scanner::DirectoryScanner;
use pki_explorer::scanner::ScanEntry;
use pki_explorer::scanner::ScanError;
use pki_explorer::scanner::ScanEvent;
use pki_explorer::scanner::ScanRequest;
use pki_explorer::scanner::ScanStep;
use pki_explorer::scanner::DEFAULT_MAX_DEPTH;
use pki_explorer::x509::X509;
use std::path::PathBuf;

const LEAF: &str = "\
-----BEGIN CERTIFICATE-----\n\
MIIBJTCBzKADAgECAhR1Ni5+mqVmnDvKStsW5oakLXQ/TTAKBggqhkjOPQQDAjAS\n\
MRAwDgYDVQQDDAdUZXN0IENBMB4XDTIzMDEwMTAwMDAwMFoXDTI1MDEwMTAwMDAw\n\
MFowFDESMBAGA1UEAwwJVGVzdCBMZWFmMFkwEwYHKoZIzj0CAQYIKoZIzj0DAQcD\n\
QgAEiECYb0fsw3Vbhsa1x6Eps9gbB7YKBakX+Tv13uEpWHitGxBaO+Jf2ah43YND\n\
WMIQ7wtl+msX7+tpR8y3pE9v9DAKBggqhkjOPQQDAgNIADBFAiEA3bn1Pc2Untao\n\
vD3t2Amdj1nL1Aq2n72GVzkmpRN1bP0CICGUAjaYtSRceNixxJM0UAHXwsoHucRH\n\
waGQEqqeQpxp\n\
-----END CERTIFICATE-----\n\
";

const ROOT: &str = "\
-----BEGIN CERTIFICATE-----\n\
MIIBKDCBzqADAgECAhRjgOaniOvaP5GScSHlPIks7l0sLzAKBggqhkjOPQQDAjAU\n\
MRIwEAYDVQQDDAlUZXN0IFJvb3QwHhcNMjAwMTAxMDAwMDAwWhcNMzAwMTAxMDAw\n\
MDAwWjAUMRIwEAYDVQQDDAlUZXN0IFJvb3QwWTATBgcqhkjOPQIBBggqhkjOPQMB\n\
BwNCAATcz3VIpANn5u5KqnnBJ+tTYF6hOtgKY2HJtDPTw48D8uDZ6palpSHJbOMQ\n\
IzEE266+J9wC7z8IBmOTzmHzJfMNMAoGCCqGSM49BAMCA0kAMEYCIQD1H1gQb1f8\n\
dBZurGMqJ4pCHtcfeTsmiPYx5guh+3RidQIhAP6FP3+w3icBgR2F+X1mZEJNlN4I\n\
u97LdQAoS5gE8D+a\n\
-----END CERTIFICATE-----\n\
";

const NAMELESS: &str = "\
-----BEGIN CERTIFICATE-----\n\
MIIBKDCBz6ADAgECAhQELZpl2rXc2xRRDYB775TSfuvwZzAKBggqhkjOPQQDAjAS\n\
MRAwDgYDVQQDDAdUZXN0IENBMB4XDTIzMDEwMTAwMDAwMFoXDTI1MDEwMTAwMDAw\n\
MFowFzEVMBMGA1UECgwMTmFtZWxlc3MgT3JnMFkwEwYHKoZIzj0CAQYIKoZIzj0D\n\
AQcDQgAEFoT3Cdm4iMqT8895H91aHOCrYWzH8FPn6dGXqRjbn9Jw9Z6xtXoWQA4t\n\
3uho6YrDhRKuGoJTAdoz8aDE9iqQzjAKBggqhkjOPQQDAgNIADBFAiEA7Wh8cKMM\n\
Wk2IeaCs70Q9SExjT780e3HZ9qU+xfwpjqYCIAFfIXQK3p7tjYGX6nxdPaT8JLrI\n\
3DG85tzCXQthuf9b\n\
-----END CERTIFICATE-----\n\
";

const BLANK: &str = "\
-----BEGIN CERTIFICATE-----\n\
MIIBHDCBw6ADAgECAhQFWTmatrGOcfq1mM/O3H7xWoSqXjAKBggqhkjOPQQDAjAS\n\
MRAwDgYDVQQDDAdUZXN0IENBMB4XDTIzMDEwMTAwMDAwMFoXDTI1MDEwMTAwMDAw\n\
MFowCzEJMAcGA1UEAwwAMFkwEwYHKoZIzj0CAQYIKoZIzj0DAQcDQgAE/gCiHn31\n\
s8dm1T6p7vNl387rScLDSCFuwg12jpC/DBHcGhq9l4A0SpHQwdwoJDQRmfwJnswU\n\
RRBre18VETRZ6TAKBggqhkjOPQQDAgNIADBFAiBFtl6qATVDMBwTS0RddlxqR0IX\n\
pcS3I564XZpYFnSNTgIhAJbGjsjElh+JZMTZPZGckSYWSf3HiAt2xjjLc84/nGHq\n\
-----END CERTIFICATE-----\n\
";

/// An entry of a directory in memory.
enum Item {
    File(&'static str),
    Dir(&'static str),
    Broken(&'static str),
}

/// A filesystem in memory: the listing of each directory (`None` where it
/// cannot be opened) and the bytes of each file (`None` where it cannot be
/// read).
struct Tree {
    dirs: Vec<(&'static str, Option<Vec<Item>>)>,
    files: Vec<(&'static str, Option<&'static [u8]>)>,
}

/// How a scan of a tree ended, and what it asked for on the way.
struct Run {
    result: Result<Vec<X509>, ScanError>,
    lines: Vec<String>,
    listed: Vec<String>,
    read: Vec<PathBuf>,
}

fn answer(tree: &Tree, request: &ScanRequest) -> ScanEvent {
    match request {
        ScanRequest::ListDirectory { dir, .. } => {
            let listing = tree.dirs.iter().find(|(path, _)| path == dir);
            match listing {
                Some((_, Some(items))) => ScanEvent::Listed(
                    items
                        .iter()
                        .map(|item| match item {
                            Item::File(path) => ScanEntry::File(PathBuf::from(path)),
                            Item::Dir(path) => ScanEntry::Directory(PathBuf::from(path)),
                            Item::Broken(reason) => ScanEntry::Unreadable(String::from(*reason)),
                        })
                        .collect(),
                ),
                _ => ScanEvent::ListingFailed(format!("{}: no such directory", dir)),
            }
        }
        ScanRequest::ReadFile { file, .. } => {
            let contents = tree.files.iter().find(|(path, _)| &PathBuf::from(path) == file);
            match contents {
                Some((_, Some(data))) => ScanEvent::Contents(data.to_vec()),
                _ => ScanEvent::ContentsUnreadable,
            }
        }
    }
}

fn scan(tree: &Tree, root: &str, max_depth: Option<u8>, verbose: bool) -> Run {
    let mut lines = Vec::new();
    let mut listed = Vec::new();
    let mut read = Vec::new();
    let mut step = DirectoryScanner::start(String::from(root), max_depth, verbose);
    loop {
        match step {
            ScanStep::Continue { scanner, diagnostics } => {
                lines.extend(diagnostics);
                match scanner.request() {
                    ScanRequest::ListDirectory { dir, .. } => listed.push(dir.clone()),
                    ScanRequest::ReadFile { file, .. } => read.push(file.clone()),
                }
                let event = answer(tree, scanner.request());
                step = scanner.step(event);
            }
            ScanStep::Finished { records, diagnostics } => {
                lines.extend(diagnostics);
                return Run { result: Ok(records), lines, listed, read };
            }
            ScanStep::Failed { error, diagnostics } => {
                lines.extend(diagnostics);
                return Run { result: Err(error), lines, listed, read };
            }
        }
    }
}

fn subjects(run: &Run) -> Vec<String> {
    run.result.as_ref().unwrap().iter().map(|x| x.get_subject().clone()).collect()
}

fn paths(run: &Run) -> Vec<PathBuf> {
    run.result.as_ref().unwrap().iter().map(|x| x.get_path().clone()).collect()
}

fn nested() -> Tree {
    Tree {
        dirs: vec![
            ("root", Some(vec![Item::Dir("root/A")])),
            ("root/A", Some(vec![Item::Dir("root/A/B")])),
            ("root/A/B", Some(vec![Item::File("root/A/B/cert.pem")])),
        ],
        files: vec![("root/A/B/cert.pem", Some(LEAF.as_bytes()))],
    }
}

fn mixed() -> Tree {
    Tree {
        dirs: vec![
            (
                "root",
                Some(vec![
                    Item::File("root/notes.txt"),
                    Item::File("root/leaf.pem"),
                    Item::Dir("root/sub"),
                    Item::File("root/nameless.pem"),
                    Item::File("root/locked.pem"),
                    Item::File("root/last.pem"),
                ]),
            ),
            ("root/sub", Some(vec![Item::File("root/sub/root.pem"), Item::Dir("root/sub/empty")])),
            ("root/sub/empty", Some(vec![])),
        ],
        files: vec![
            ("root/notes.txt", Some(b"shopping list")),
            ("root/leaf.pem", Some(LEAF.as_bytes())),
            ("root/sub/root.pem", Some(ROOT.as_bytes())),
            ("root/nameless.pem", Some(NAMELESS.as_bytes())),
            ("root/locked.pem", None),
            ("root/last.pem", Some(ROOT.as_bytes())),
        ],
    }
}

#[test]
fn empty_directory_yields_nothing() {
    let tree = Tree { dirs: vec![("root", Some(vec![]))], files: vec![] };
    let run = scan(&tree, "root", Some(2), false);
    assert_eq!(run.result.as_ref().map(|records| records.len()), Ok(0));
    assert!(run.lines.is_empty());
    assert_eq!(run.listed, vec![String::from("root")]);
}

#[test]
fn depth_bound_excludes_deeper_certificates() {
    let run = scan(&nested(), "root", Some(1), false);
    assert_eq!(subjects(&run), Vec::<String>::new());
    assert_eq!(run.listed, vec![String::from("root"), String::from("root/A")]);
    assert!(run.read.is_empty());
}

#[test]
fn depth_bound_includes_certificates_within_it() {
    let run = scan(&nested(), "root", Some(2), false);
    assert_eq!(subjects(&run), vec![String::from("Test Leaf")]);
    assert_eq!(paths(&run), vec![PathBuf::from("root/A/B/cert.pem")]);
    assert_eq!(
        run.listed,
        vec![String::from("root"), String::from("root/A"), String::from("root/A/B")]
    );
}

#[test]
fn default_depth_is_two() {
    assert_eq!(DEFAULT_MAX_DEPTH, 2);
    let run = scan(&nested(), "root", None, false);
    assert_eq!(subjects(&run), vec![String::from("Test Leaf")]);
    let deeper = Tree {
        dirs: vec![
            ("r", Some(vec![Item::Dir("r/1")])),
            ("r/1", Some(vec![Item::Dir("r/1/2")])),
            ("r/1/2", Some(vec![Item::Dir("r/1/2/3")])),
            ("r/1/2/3", Some(vec![Item::File("r/1/2/3/cert.pem")])),
        ],
        files: vec![("r/1/2/3/cert.pem", Some(LEAF.as_bytes()))],
    };
    let run = scan(&deeper, "r", None, false);
    assert_eq!(subjects(&run), Vec::<String>::new());
    assert_eq!(run.listed, vec![String::from("r"), String::from("r/1"), String::from("r/1/2")]);
    let run = scan(&deeper, "r", Some(3), false);
    assert_eq!(subjects(&run), vec![String::from("Test Leaf")]);
}

#[test]
fn depth_zero_stays_in_the_root() {
    let tree = Tree {
        dirs: vec![
            ("root", Some(vec![Item::Dir("root/A"), Item::File("root/top.pem")])),
            ("root/A", Some(vec![Item::File("root/A/inner.pem")])),
        ],
        files: vec![
            ("root/top.pem", Some(ROOT.as_bytes())),
            ("root/A/inner.pem", Some(LEAF.as_bytes())),
        ],
    };
    let run = scan(&tree, "root", Some(0), false);
    assert_eq!(subjects(&run), vec![String::from("Test Root")]);
    assert_eq!(run.listed, vec![String::from("root")]);
}

#[test]
fn a_directory_beyond_the_bound_is_never_opened() {
    let tree = Tree {
        dirs: vec![("root", Some(vec![Item::Dir("root/locked"), Item::File("root/leaf.pem")]))],
        files: vec![("root/leaf.pem", Some(LEAF.as_bytes()))],
    };
    let run = scan(&tree, "root", Some(0), false);
    assert_eq!(subjects(&run), vec![String::from("Test Leaf")]);
    let run = scan(&tree, "root", Some(1), false);
    assert_eq!(
        run.result.unwrap_err(),
        ScanError::DirectoryUnreadable {
            dir: String::from("root/locked"),
            reason: String::from("root/locked: no such directory"),
        }
    );
}

#[test]
fn mixed_content_is_tolerated_and_order_is_kept() {
    let run = scan(&mixed(), "root", Some(2), false);
    assert_eq!(
        subjects(&run),
        vec![String::from("Test Leaf"), String::from("Test Root"), String::from("Test Root")]
    );
    assert_eq!(
        paths(&run),
        vec![
            PathBuf::from("root/leaf.pem"),
            PathBuf::from("root/sub/root.pem"),
            PathBuf::from("root/last.pem"),
        ]
    );
    assert!(run.lines.is_empty());
    assert_eq!(
        run.read,
        vec![
            PathBuf::from("root/notes.txt"),
            PathBuf::from("root/leaf.pem"),
            PathBuf::from("root/sub/root.pem"),
            PathBuf::from("root/nameless.pem"),
            PathBuf::from("root/locked.pem"),
            PathBuf::from("root/last.pem"),
        ]
    );
}

#[test]
fn verbose_scan_reports_each_directory_and_file() {
    let run = scan(&mixed(), "root", Some(2), true);
    assert_eq!(
        run.lines,
        vec![
            ".. Looking for X509s in root at depth 0",
            ".. Skipped root/notes.txt at depth 0",
            ".. Found valid X509: root/leaf.pem at depth 0",
            ".. Looking for X509s in root/sub at depth 1",
            ".. Found valid X509: root/sub/root.pem at depth 1",
            ".. Looking for X509s in root/sub/empty at depth 2",
            ".. Skipped root/nameless.pem at depth 0",
            ".. Skipped root/locked.pem at depth 0",
            ".. Found valid X509: root/last.pem at depth 0",
        ]
    );
    assert_eq!(subjects(&run).len(), 3);
}

#[test]
fn missing_root_is_fatal() {
    let tree = Tree { dirs: vec![], files: vec![] };
    let run = scan(&tree, "nowhere", Some(2), true);
    let error = run.result.unwrap_err();
    assert_eq!(
        error,
        ScanError::DirectoryUnreadable {
            dir: String::from("nowhere"),
            reason: String::from("nowhere: no such directory"),
        }
    );
    assert_eq!(error.message(), "nowhere: no such directory");
    assert_eq!(run.lines, vec![".. Looking for X509s in nowhere at depth 0"]);
}

#[test]
fn unreadable_nested_directory_is_fatal() {
    let tree = Tree {
        dirs: vec![
            ("root", Some(vec![Item::File("root/leaf.pem"), Item::Dir("root/locked")])),
            ("root/locked", None),
        ],
        files: vec![("root/leaf.pem", Some(LEAF.as_bytes()))],
    };
    let run = scan(&tree, "root", Some(2), false);
    assert!(matches!(run.result, Err(ScanError::DirectoryUnreadable { .. })));
}

#[test]
fn failed_enumeration_is_fatal() {
    let tree = Tree {
        dirs: vec![(
            "root",
            Some(vec![
                Item::File("root/leaf.pem"),
                Item::Broken("stale handle"),
                Item::File("root/root.pem"),
            ]),
        )],
        files: vec![
            ("root/leaf.pem", Some(LEAF.as_bytes())),
            ("root/root.pem", Some(ROOT.as_bytes())),
        ],
    };
    let run = scan(&tree, "root", Some(2), false);
    let error = run.result.unwrap_err();
    assert_eq!(error, ScanError::EntryUnreadable { reason: String::from("stale handle") });
    assert_eq!(error.message(), "stale handle");
    assert_eq!(run.read, vec![PathBuf::from("root/leaf.pem")]);
}

#[test]
fn an_event_that_answers_nothing_is_refused() {
    let error = |step: ScanStep| match step {
        ScanStep::Failed { error, .. } => error,
        _ => panic!("the scan went on"),
    };
    let scanner = |step: ScanStep| match step {
        ScanStep::Continue { scanner, .. } => scanner,
        _ => panic!("the scan ended"),
    };
    let start = || scanner(DirectoryScanner::start(String::from("root"), Some(2), false));
    assert_eq!(error(start().step(ScanEvent::Contents(Vec::new()))), ScanError::UnexpectedEvent);
    assert_eq!(error(start().step(ScanEvent::ContentsUnreadable)), ScanError::UnexpectedEvent);
    let reading = || {
        scanner(start().step(ScanEvent::Listed(vec![ScanEntry::File(PathBuf::from("root/a"))])))
    };
    assert_eq!(
        reading().request(),
        &ScanRequest::ReadFile { file: PathBuf::from("root/a"), level: 0 }
    );
    assert_eq!(error(reading().step(ScanEvent::Listed(Vec::new()))), ScanError::UnexpectedEvent);
    assert_eq!(
        error(reading().step(ScanEvent::ListingFailed(String::from("no")))),
        ScanError::UnexpectedEvent
    );
    assert_eq!(
        ScanError::UnexpectedEvent.message(),
        "The scanner was handed an answer to no request of its own."
    );
}

#[test]
fn a_scan_starts_by_asking_for_the_root() {
    match DirectoryScanner::start(String::from("some/where"), None, false) {
        ScanStep::Continue { scanner, diagnostics } => {
            assert_eq!(
                scanner.request(),
                &ScanRequest::ListDirectory { dir: String::from("some/where"), level: 0 }
            );
            assert!(diagnostics.is_empty());
        }
        _ => panic!("the scan ended before it began"),
    }
}

#[test]
fn requests_name_the_level_of_their_directory() {
    let step = DirectoryScanner::start(String::from("root"), Some(5), false);
    let scanner = match step {
        ScanStep::Continue { scanner, .. } => scanner,
        _ => panic!("the scan ended"),
    };
    let step = scanner.step(ScanEvent::Listed(vec![ScanEntry::Directory(PathBuf::from("root/A"))]));
    let scanner = match step {
        ScanStep::Continue { scanner, .. } => scanner,
        _ => panic!("the scan ended"),
    };
    assert_eq!(
        scanner.request(),
        &ScanRequest::ListDirectory { dir: String::from("root/A"), level: 1 }
    );
    let step = scanner.step(ScanEvent::Listed(vec![ScanEntry::File(PathBuf::from("root/A/x"))]));
    let scanner = match step {
        ScanStep::Continue { scanner, .. } => scanner,
        _ => panic!("the scan ended"),
    };
    assert_eq!(
        scanner.request(),
        &ScanRequest::ReadFile { file: PathBuf::from("root/A/x"), level: 1 }
    );
    match scanner.step(ScanEvent::Contents(LEAF.as_bytes().to_vec())) {
        ScanStep::Finished { records, .. } => assert_eq!(records.len(), 1),
        _ => panic!("the scan did not finish"),
    }
}

#[test]
fn path_error_has_its_message() {
    let error = ScanError::PathNotText { path: PathBuf::from("x") };
    assert_eq!(error.message(), "Couldn't not parse the nested directory.");
}

#[test]
fn a_directory_that_leads_back_into_itself_is_walked_to_the_bound() {
    let tree = Tree {
        dirs: vec![
            ("root", Some(vec![Item::File("root/leaf.pem"), Item::Dir("root/loop")])),
            ("root/loop", Some(vec![Item::File("root/leaf.pem"), Item::Dir("root/loop")])),
        ],
        files: vec![("root/leaf.pem", Some(LEAF.as_bytes()))],
    };
    let run = scan(&tree, "root", Some(3), false);
    assert_eq!(subjects(&run).len(), 4);
    assert_eq!(run.listed.len(), 4);
    let run = scan(&tree, "root", Some(0), false);
    assert_eq!(subjects(&run).len(), 1);
    let run = scan(&tree, "root", Some(255), false);
    assert_eq!(subjects(&run).len(), 256);
    assert_eq!(run.listed.len(), 256);
}

#[test]
fn no_request_goes_deeper_than_the_bound() {
    let tree = Tree {
        dirs: vec![
            ("root", Some(vec![Item::Dir("root/loop"), Item::File("root/leaf.pem")])),
            ("root/loop", Some(vec![Item::Dir("root/loop"), Item::File("root/leaf.pem")])),
        ],
        files: vec![("root/leaf.pem", Some(LEAF.as_bytes()))],
    };
    for bound in [0u8, 1, 2, 7] {
        let mut step = DirectoryScanner::start(String::from("root"), Some(bound), false);
        let mut deepest = 0;
        while let ScanStep::Continue { scanner, .. } = step {
            let level = match scanner.request() {
                ScanRequest::ListDirectory { level, .. } => *level,
                ScanRequest::ReadFile { level, .. } => *level,
            };
            assert!(level <= bound);
            deepest = deepest.max(level);
            let event = answer(&tree, scanner.request());
            step = scanner.step(event);
        }
        assert_eq!(deepest, bound);
        assert!(matches!(step, ScanStep::Finished { .. }));
    }
}

#[test]
fn a_certificate_with_an_empty_common_name_is_passed_over() {
    let tree = Tree {
        dirs: vec![(
            "root",
            Some(vec![
                Item::File("root/blank.pem"),
                Item::File("root/leaf.pem"),
            ]),
        )],
        files: vec![
            ("root/blank.pem", Some(BLANK.as_bytes())),
            ("root/leaf.pem", Some(LEAF.as_bytes())),
        ],
    };
    let run = scan(&tree, "root", Some(2), true);
    assert_eq!(subjects(&run), vec![String::from("Test Leaf")]);
    assert_eq!(
        run.lines,
        vec![
            ".. Looking for X509s in root at depth 0",
            ".. Skipped root/blank.pem at depth 0",
            ".. Found valid X509: root/leaf.pem at depth 0",
        ]
    );
}

#[test]
fn no_record_of_a_scan_has_an_empty_name() {
    let run = scan(&mixed(), "root", Some(2), false);
    for record in run.result.unwrap() {
        assert!(!record.get_subject().is_empty());
        assert!(!record.get_issuer().is_empty());
    }
}
