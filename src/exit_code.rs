use vstd::prelude::*;

verus! {

/// The planned, user-facing reasons for which the program stops early.
#[derive(Clone, Copy, Debug, PartialEq, Eq, Structural)]
pub enum Failure {
    /// Argument zero is missing.
    NoArgs,
    /// The invocation stem is neither `cpy` nor `pst`.
    WrongBinary,
    /// `cpy` was given no path.
    CpyNoPath,
    /// `cpy` was given a path that does not exist.
    CpyNotAPath,
    /// `pst` was given a destination that is not an existing directory.
    PstInvalidPath,
}

/// The process status that reports a failure.
pub open spec fn code_of(f: Failure) -> int {
    match f {
        Failure::NoArgs => 1,
        Failure::WrongBinary => 2,
        Failure::CpyNoPath => 3,
        Failure::CpyNotAPath => 4,
        Failure::PstInvalidPath => 5,
    }
}

impl Failure {
    /// The process status for this failure.
    pub fn code(&self) -> (r: i32)
        ensures
            r as int == code_of(*self),
    {
        match self {
            Failure::NoArgs => 1,
            Failure::WrongBinary => 2,
            Failure::CpyNoPath => 3,
            Failure::CpyNotAPath => 4,
            Failure::PstInvalidPath => 5,
        }
    }

    /// The diagnostic for this failure.
    pub fn message(&self) -> (r: &'static str)
        ensures
            r@ == message_of(*self),
    {
        match self {
            Failure::NoArgs => usage(),
            Failure::WrongBinary => usage(),
            Failure::CpyNoPath => "error: cpy requires a path to copy.",
            Failure::CpyNotAPath => "error: provided file/folder does not exist.",
            Failure::PstInvalidPath => "error: the provided path does not exist, or is not a folder.",
        }
    }

    /// Whether the usage text is what reports this failure.
    pub fn shows_usage(&self) -> (r: bool)
        ensures
            r == (*self == Failure::NoArgs || *self == Failure::WrongBinary),
    {
        match self {
            Failure::NoArgs => true,
            Failure::WrongBinary => true,
            _ => false,
        }
    }
}

/// The usage text, printed to standard error on every usage error.
pub open spec fn usage_text() -> Seq<char> {
    "\ncpy FILE\n    Adds file/folder to the clipboard.\n\npst [DIR]\n    Pastes file to the specified folder, or current folder."@
}

/// The diagnostic printed to standard error for a failure.
pub open spec fn message_of(f: Failure) -> Seq<char> {
    match f {
        Failure::NoArgs => usage_text(),
        Failure::WrongBinary => usage_text(),
        Failure::CpyNoPath => "error: cpy requires a path to copy."@,
        Failure::CpyNotAPath => "error: provided file/folder does not exist."@,
        Failure::PstInvalidPath => "error: the provided path does not exist, or is not a folder."@,
    }
}

/// The usage text.
pub fn usage() -> (r: &'static str)
    ensures
        r@ == usage_text(),
{
    "\ncpy FILE\n    Adds file/folder to the clipboard.\n\npst [DIR]\n    Pastes file to the specified folder, or current folder."
}

/// Every failure has its own status, and none of them is the success status 0.
pub proof fn codes_distinct(a: Failure, b: Failure)
    ensures
        code_of(a) != 0,
        code_of(a) == code_of(b) <==> a == b,
{
}

} // verus!
