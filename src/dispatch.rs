use vstd::prelude::*;

use crate::exit_code::{message_of, usage_text, Failure};
use crate::text::{opt_text, same_text};

verus! {

/// The two behaviours, chosen by the name the program was invoked as.
#[derive(Clone, Copy, Debug, PartialEq, Eq, Structural)]
pub enum Mode {
    /// Put a path on the clipboard.
    Cpy,
    /// Copy the path on the clipboard into a directory.
    Pst,
}

/// What the program does after looking at argument zero.
#[derive(Clone, Copy, Debug, PartialEq, Eq, Structural)]
pub enum Dispatch {
    /// Run one of the modes on the remaining arguments.
    Run(Mode),
    /// Print the usage text and stop with the failure's status.
    Usage(Failure),
    /// Argument zero has no file stem: an unrecoverable input error.
    NoStem,
}

/// The stems that select a mode, each with the mode it selects.
pub open spec fn invocation_table() -> Seq<(Seq<char>, Mode)> {
    seq![("cpy"@, Mode::Cpy), ("pst"@, Mode::Pst)]
}

/// The mode of the first entry of `table` whose stem is `stem`.
pub open spec fn lookup(table: Seq<(Seq<char>, Mode)>, stem: Seq<char>) -> Option<Mode>
    decreases table.len(),
{
    if table.len() == 0 {
        None
    } else if table[0].0 == stem {
        Some(table[0].1)
    } else {
        lookup(table.drop_first(), stem)
    }
}

/// The mode that a stem selects, compared case-sensitively.
pub open spec fn mode_for(stem: Seq<char>) -> Option<Mode> {
    lookup(invocation_table(), stem)
}

/// The decision for argument zero whose stem is `stem`.
pub open spec fn dispatch_for(stem: Option<Seq<char>>) -> Dispatch {
    match stem {
        None => Dispatch::NoStem,
        Some(s) => match mode_for(s) {
            Some(m) => Dispatch::Run(m),
            None => Dispatch::Usage(Failure::WrongBinary),
        },
    }
}

/// What `std::path::Path::file_stem` gives for a path.
pub uninterp spec fn stem_of(path: Seq<char>) -> Option<Seq<char>>;

/// Relies on std::path::Path::file_stem: the final component of the path without
/// its extension, or none where the path has no final component.
#[verifier::external_body]
fn file_stem(path: &str) -> (r: Option<String>)
    ensures
        r is None <==> stem_of(path@) is None,
        r matches Some(s) ==> stem_of(path@) == Some(s@),
{
    match std::path::Path::new(path).file_stem() {
        Some(s) => Some(s.to_string_lossy().into_owned()),
        None => None,
    }
}

/// Looks a stem up in the table of invocation names.
pub fn mode_of_stem(stem: &str) -> (r: Option<Mode>)
    ensures
        r == mode_for(stem@),
{
    let table: Vec<(&str, Mode)> = vec![("cpy", Mode::Cpy), ("pst", Mode::Pst)];
    let ghost spec_table = invocation_table();
    assert(table@.len() == 2);
    assert(spec_table.subrange(0, 2) =~= spec_table);
    let mut i: usize = 0;
    while i < table.len()
        invariant
            table@.len() == spec_table.len() == 2,
            forall|j: int| 0 <= j < 2 ==> (#[trigger] table@[j]).0@ == spec_table[j].0
                && table@[j].1 == spec_table[j].1,
            i <= 2,
            lookup(spec_table.subrange(i as int, 2), stem@) == mode_for(stem@),
        decreases 2 - i,
    {
        let entry = &table[i];
        if same_text(entry.0, stem) {
            return Some(entry.1);
        }
        assert(spec_table.subrange(i as int, 2).drop_first() =~= spec_table.subrange(
            i + 1,
            2,
        ));
        i = i + 1;
    }
    None
}

/// Decides from the stem of argument zero.
pub fn dispatch_stem(stem: Option<&str>) -> (r: Dispatch)
    ensures
        r == dispatch_for(opt_text(stem)),
{
    match stem {
        None => Dispatch::NoStem,
        Some(s) => match mode_of_stem(s) {
            Some(m) => Dispatch::Run(m),
            None => Dispatch::Usage(Failure::WrongBinary),
        },
    }
}

/// Decides from argument zero, the path the program was invoked as.
pub fn dispatch(arg0: Option<&str>) -> (r: Dispatch)
    ensures
        arg0 is None ==> r == Dispatch::Usage(Failure::NoArgs),
        arg0 matches Some(bin) ==> r == dispatch_for(stem_of(bin@)),
{
    match arg0 {
        None => Dispatch::Usage(Failure::NoArgs),
        Some(bin) => {
            let stem = file_stem(bin);
            match stem {
                Some(s) => dispatch_stem(Some(s.as_str())),
                None => dispatch_stem(None),
            }
        },
    }
}

/// Any stem other than `cpy` and `pst` is a usage error with the wrong-binary
/// status, reported by the usage text; `cpy` and `pst` select their modes.
pub proof fn unknown_stem_is_usage_error(stem: Seq<char>)
    ensures
        stem == "cpy"@ ==> dispatch_for(Some(stem)) == Dispatch::Run(Mode::Cpy),
        stem == "pst"@ ==> dispatch_for(Some(stem)) == Dispatch::Run(Mode::Pst),
        stem != "cpy"@ && stem != "pst"@ ==> dispatch_for(Some(stem)) == Dispatch::Usage(
            Failure::WrongBinary,
        ),
        message_of(Failure::WrongBinary) == usage_text(),
        message_of(Failure::NoArgs) == usage_text(),
{
    reveal_strlit("cpy");
    reveal_strlit("pst");
    let t = invocation_table();
    assert("cpy"@[0] != "pst"@[0]);
    assert(t.drop_first() =~= seq![("pst"@, Mode::Pst)]);
    assert(t.drop_first().drop_first() =~= Seq::<(Seq<char>, Mode)>::empty());
    assert(lookup(t.drop_first().drop_first(), stem) is None);
    assert(lookup(t.drop_first(), stem) == (if stem == "pst"@ {
        Some(Mode::Pst)
    } else {
        None
    }));
}

} // verus!
