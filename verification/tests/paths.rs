use pki_explorer::path::show_path;
use pki_explorer::path::shown_text;
use pki_explorer::path::UNPRINTABLE_PATH;
use std::path::PathBuf;

#[test]
fn a_path_is_shown_as_its_text() {
    assert_eq!(show_path(&PathBuf::from("certs/leaf.pem")), "certs/leaf.pem");
    assert_eq!(show_path(&PathBuf::from("")), "");
}

#[test]
fn a_path_without_text_is_shown_by_the_fallback() {
    assert_eq!(shown_text(None), UNPRINTABLE_PATH);
    assert_eq!(shown_text(None), "Couldn't fetch the X509 path.");
}

#[test]
fn a_text_is_shown_unchanged() {
    assert_eq!(shown_text(Some(String::from("a/b"))), "a/b");
}
