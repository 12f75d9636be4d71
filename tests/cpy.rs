use cpypst::cpy::{clipboard_text, clipboard_warning};
use cpypst::exit_code::Failure;

#[test]
fn existing_path_is_stored_in_canonical_form() {
    let r = clipboard_text(Some("a/hello.txt"), true, Some("/tmp/a/hello.txt"));
    assert_eq!(r, Ok("/tmp/a/hello.txt".to_string()));
}

#[test]
fn failed_canonicalization_keeps_the_path_as_given() {
    let r = clipboard_text(Some("a/hello.txt"), true, None);
    assert_eq!(r, Ok("a/hello.txt".to_string()));
}

#[test]
fn missing_path_argument() {
    let r = clipboard_text(None, false, None);
    assert_eq!(r, Err(Failure::CpyNoPath));
    assert_eq!(Failure::CpyNoPath.code(), 3);
}

#[test]
fn nonexistent_path_is_not_a_path() {
    let r = clipboard_text(Some("/tmp/does/not/exist"), false, None);
    assert_eq!(r, Err(Failure::CpyNotAPath));
    assert_eq!(Failure::CpyNotAPath.code(), 4);
    let r = clipboard_text(Some("/tmp/does/not/exist"), false, Some("/ignored"));
    assert_eq!(r, Err(Failure::CpyNotAPath));
}

#[test]
fn warning_names_the_reason() {
    assert_eq!(
        clipboard_warning("no display"),
        "warn: failed to set clipboard (no display)"
    );
    assert_eq!(clipboard_warning(""), "warn: failed to set clipboard ()");
}
