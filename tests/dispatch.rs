use cpypst::dispatch::{dispatch, dispatch_stem, mode_of_stem, Dispatch, Mode};
use cpypst::exit_code::{usage, Failure};

#[test]
fn no_argument_zero_is_a_usage_error() {
    let d = dispatch(None);
    assert_eq!(d, Dispatch::Usage(Failure::NoArgs));
    assert_eq!(Failure::NoArgs.code(), 1);
    assert!(Failure::NoArgs.shows_usage());
    assert_eq!(Failure::NoArgs.message(), usage());
}

#[test]
fn foreign_stem_is_wrong_binary() {
    assert_eq!(dispatch(Some("foo")), Dispatch::Usage(Failure::WrongBinary));
    assert_eq!(dispatch(Some("/usr/local/bin/foo")), Dispatch::Usage(Failure::WrongBinary));
    assert_eq!(Failure::WrongBinary.code(), 2);
    assert!(Failure::WrongBinary.shows_usage());
    assert_eq!(Failure::WrongBinary.message(), usage());
}

#[test]
fn cpy_and_pst_select_their_modes() {
    assert_eq!(dispatch(Some("cpy")), Dispatch::Run(Mode::Cpy));
    assert_eq!(dispatch(Some("pst")), Dispatch::Run(Mode::Pst));
    assert_eq!(dispatch(Some("/usr/local/bin/cpy")), Dispatch::Run(Mode::Cpy));
    assert_eq!(dispatch(Some("./target/release/pst")), Dispatch::Run(Mode::Pst));
}

#[test]
fn extension_is_stripped_from_the_stem() {
    assert_eq!(dispatch(Some("bin/cpy.exe")), Dispatch::Run(Mode::Cpy));
    assert_eq!(dispatch(Some("pst.exe")), Dispatch::Run(Mode::Pst));
    assert_eq!(dispatch(Some("cpy.tar.gz")), Dispatch::Usage(Failure::WrongBinary));
}

#[test]
fn stem_comparison_is_case_sensitive() {
    assert_eq!(dispatch(Some("CPY")), Dispatch::Usage(Failure::WrongBinary));
    assert_eq!(dispatch(Some("/bin/Pst")), Dispatch::Usage(Failure::WrongBinary));
    assert_eq!(mode_of_stem("cpy "), None);
    assert_eq!(mode_of_stem(""), None);
}

#[test]
fn path_without_stem_is_unrecoverable() {
    assert_eq!(dispatch(Some("")), Dispatch::NoStem);
    assert_eq!(dispatch(Some("/")), Dispatch::NoStem);
    assert_eq!(dispatch(Some("bin/..")), Dispatch::NoStem);
}

#[test]
fn table_lookup() {
    assert_eq!(mode_of_stem("cpy"), Some(Mode::Cpy));
    assert_eq!(mode_of_stem("pst"), Some(Mode::Pst));
    assert_eq!(mode_of_stem("cp"), None);
    assert_eq!(dispatch_stem(None), Dispatch::NoStem);
    assert_eq!(dispatch_stem(Some("pst")), Dispatch::Run(Mode::Pst));
    assert_eq!(dispatch_stem(Some("bar")), Dispatch::Usage(Failure::WrongBinary));
}
