use cpypst::exit_code::{usage, Failure};

#[test]
fn codes_are_distinct_and_nonzero() {
    let all = [
        Failure::NoArgs,
        Failure::WrongBinary,
        Failure::CpyNoPath,
        Failure::CpyNotAPath,
        Failure::PstInvalidPath,
    ];
    let codes: Vec<i32> = all.iter().map(|f| f.code()).collect();
    assert_eq!(codes, vec![1, 2, 3, 4, 5]);
}

#[test]
fn usage_text_describes_both_commands() {
    assert_eq!(
        usage(),
        "\ncpy FILE\n    Adds file/folder to the clipboard.\n\npst [DIR]\n    Pastes file to the specified folder, or current folder."
    );
}

#[test]
fn messages_of_the_mode_errors() {
    assert_eq!(Failure::CpyNoPath.message(), "error: cpy requires a path to copy.");
    assert_eq!(Failure::CpyNotAPath.message(), "error: provided file/folder does not exist.");
    assert_eq!(
        Failure::PstInvalidPath.message(),
        "error: the provided path does not exist, or is not a folder."
    );
    assert!(!Failure::CpyNoPath.shows_usage());
    assert!(!Failure::CpyNotAPath.shows_usage());
    assert!(!Failure::PstInvalidPath.shows_usage());
}
