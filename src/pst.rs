use vstd::prelude::*;
use vstd::string::StringExecFns;

use crate::cpy::clipboard_text_for;
use crate::exit_code::Failure;
use crate::paths::{file_name, file_name_of, join, joined, quote, quoted};

verus! {

/// The directory that `pst` copies into.
#[derive(Clone, Debug)]
pub enum Destination {
    /// The directory given as the argument.
    Explicit(String),
    /// The process's current working directory.
    WorkingDir,
}

/// What the filesystem reports of the path read from the clipboard.
#[derive(Clone, Copy, Debug, PartialEq, Eq, Structural)]
pub enum SourceKind {
    /// Its metadata could not be read: it does not exist or cannot be reached.
    Missing,
    /// A directory.
    Directory,
    /// A regular file.
    File,
    /// Anything else, such as a device file.
    Other,
}

/// The copy that `pst` performs.
#[derive(Clone, Debug)]
pub enum PastePlan {
    /// Nothing is copied, and the run ends successfully.
    Nothing,
    /// Copy a single file's bytes from `from` to `to`.
    CopyFile { from: String, to: String },
    /// Copy a directory tree from `from` to `to`.
    CopyDir { from: String, to: String },
    /// The source has no final component to name the copy by: an unrecoverable
    /// input error.
    NoFileName,
}

/// The operating system whose copy utility copies directory trees.
#[derive(Clone, Copy, Debug, PartialEq, Eq, Structural)]
pub enum Host {
    Unix,
    Windows,
}

/// A command run through the host's shell: `program flag script`.
#[derive(Clone, Debug)]
pub struct ShellCommand {
    pub program: String,
    pub flag: String,
    pub script: String,
}

/// Chooses where `pst` copies to. `arg_is_dir` says whether the argument, where
/// there is one, names an existing directory (symbolic links followed).
pub fn destination(arg: Option<&str>, arg_is_dir: bool) -> (r: Result<Destination, Failure>)
    ensures
        arg is None ==> r matches Ok(Destination::WorkingDir),
        arg is Some && !arg_is_dir ==> r == Err::<Destination, Failure>(Failure::PstInvalidPath),
        arg is Some && arg_is_dir ==> (r matches Ok(Destination::Explicit(d)) && d@
            == arg.unwrap()@),
{
    match arg {
        None => Ok(Destination::WorkingDir),
        Some(a) => {
            if arg_is_dir {
                Ok(Destination::Explicit(String::from_str(a)))
            } else {
                Err(Failure::PstInvalidPath)
            }
        },
    }
}

/// The kind of the source, from its metadata where it could be read: a
/// directory first, then a regular file, else anything else.
pub fn classify(found: bool, is_dir: bool, is_file: bool) -> (r: SourceKind)
    ensures
        !found ==> r == SourceKind::Missing,
        found && is_dir ==> r == SourceKind::Directory,
        found && !is_dir && is_file ==> r == SourceKind::File,
        found && !is_dir && !is_file ==> r == SourceKind::Other,
{
    if !found {
        SourceKind::Missing
    } else if is_dir {
        SourceKind::Directory
    } else if is_file {
        SourceKind::File
    } else {
        SourceKind::Other
    }
}

/// Where the copy of `source` lands in `dir`: the directory joined with the
/// source's final component, where it has one.
pub open spec fn target_in(dir: Seq<char>, source: Seq<char>) -> Option<Seq<char>> {
    match file_name_of(source) {
        Some(name) => Some(joined(dir, name)),
        None => None,
    }
}

/// Whether `p` is the plan for a source of the given kind whose copy would land
/// at `target` (none where the source has no final component).
pub open spec fn plan_is(
    p: PastePlan,
    kind: SourceKind,
    source: Seq<char>,
    target: Option<Seq<char>>,
) -> bool {
    if kind == SourceKind::Missing {
        p is Nothing
    } else {
        match target {
            None => p is NoFileName,
            Some(t) => match kind {
                SourceKind::Directory => p matches PastePlan::CopyDir { from, to } && from@
                    == source && to@ == t,
                SourceKind::File => p matches PastePlan::CopyFile { from, to } && from@
                    == source && to@ == t,
                _ => p is Nothing,
            },
        }
    }
}

/// Decides the copy for a source of the given kind, given where it would land.
pub fn paste_plan(kind: SourceKind, source: &str, target: Option<String>) -> (r: PastePlan)
    ensures
        plan_is(
            r,
            kind,
            source@,
            match target {
                Some(t) => Some(t@),
                None => None,
            },
        ),
{
    match kind {
        SourceKind::Missing => PastePlan::Nothing,
        _ => match target {
            None => PastePlan::NoFileName,
            Some(t) => match kind {
                SourceKind::Directory => PastePlan::CopyDir { from: String::from_str(source), to: t },
                SourceKind::File => PastePlan::CopyFile { from: String::from_str(source), to: t },
                _ => PastePlan::Nothing,
            },
        },
    }
}

/// Decides the copy of `source`, the text read from the clipboard, into `dir`.
pub fn plan_paste(dir: &str, source: &str, kind: SourceKind) -> (r: PastePlan)
    ensures
        plan_is(r, kind, source@, target_in(dir@, source@)),
{
    if kind == SourceKind::Missing {
        return PastePlan::Nothing;
    }
    let target = match file_name(source) {
        Some(name) => Some(join(dir, name.as_str())),
        None => None,
    };
    paste_plan(kind, source, target)
}

/// What `cpy` puts on the clipboard is what `pst` copies: a later paste of an
/// existing file or directory into `dir` copies exactly that text, to `dir`
/// joined with its final component; a paste of a source that no longer exists
/// copies nothing.
pub proof fn pasted_source_is_copied_text(
    path: Seq<char>,
    canonical: Option<Seq<char>>,
    dir: Seq<char>,
    kind: SourceKind,
    p: PastePlan,
)
    requires
        plan_is(
            p,
            kind,
            clipboard_text_for(path, canonical),
            target_in(dir, clipboard_text_for(path, canonical)),
        ),
    ensures
        kind == SourceKind::Missing ==> p is Nothing,
        ({
            let text = clipboard_text_for(path, canonical);
            file_name_of(text) matches Some(name) ==> {
                &&& kind == SourceKind::File ==> (p matches PastePlan::CopyFile { from, to } && from@
                    == text && to@ == joined(dir, name))
                &&& kind == SourceKind::Directory ==> (p matches PastePlan::CopyDir { from, to }
                    && from@ == text && to@ == joined(dir, name))
            }
        }),
{
}

/// The script that copies a directory tree on the given host.
pub open spec fn dir_copy_script(host: Host, from: Seq<char>, to: Seq<char>) -> Seq<char> {
    match host {
        Host::Unix => "cp -r "@ + quoted(from) + " "@ + quoted(to),
        Host::Windows => "robocopy /z /e "@ + quoted(from) + " "@ + quoted(to),
    }
}

/// The shell command that copies the directory tree `from` to `to` with the
/// host's own recursive copy utility.
pub fn dir_copy_command(host: Host, from: &str, to: &str) -> (r: ShellCommand)
    ensures
        host == Host::Unix ==> r.program@ == "sh"@ && r.flag@ == "-c"@,
        host == Host::Windows ==> r.program@ == "cmd.exe"@ && r.flag@ == "/C"@,
        r.script@ == dir_copy_script(host, from@, to@),
{
    let (program, flag, mut script) = match host {
        Host::Unix => (String::from_str("sh"), String::from_str("-c"), String::from_str("cp -r ")),
        Host::Windows => (
            String::from_str("cmd.exe"),
            String::from_str("/C"),
            String::from_str("robocopy /z /e "),
        ),
    };
    let qf = quote(from);
    let qt = quote(to);
    script.append(qf.as_str());
    script.append(" ");
    script.append(qt.as_str());
    ShellCommand { program, flag, script }
}

} // verus!
