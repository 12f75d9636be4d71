use vstd::prelude::*;
use vstd::string::StringExecFns;

use crate::exit_code::Failure;
use crate::text::opt_text;

verus! {

/// The text that `cpy` puts on the clipboard: the canonical form of the path
/// where one could be had, else the path as given.
pub open spec fn clipboard_text_for(path: Seq<char>, canonical: Option<Seq<char>>) -> Seq<char> {
    match canonical {
        Some(c) => c,
        None => path,
    }
}

/// Decides what `cpy` writes to the clipboard.
///
/// `path` is the first argument after argument zero, `exists` whether it names
/// something on the filesystem, and `canonical` its canonical form where
/// canonicalization succeeded (looked at only where the path exists).
pub fn clipboard_text(path: Option<&str>, exists: bool, canonical: Option<&str>) -> (r: Result<
    String,
    Failure,
>)
    ensures
        path is None ==> r == Err::<String, Failure>(Failure::CpyNoPath),
        path is Some && !exists ==> r == Err::<String, Failure>(Failure::CpyNotAPath),
        path is Some && exists ==> (r matches Ok(t) && t@ == clipboard_text_for(
            path.unwrap()@,
            opt_text(canonical),
        )),
{
    match path {
        None => Err(Failure::CpyNoPath),
        Some(p) => {
            if !exists {
                Err(Failure::CpyNotAPath)
            } else {
                match canonical {
                    Some(c) => Ok(String::from_str(c)),
                    None => Ok(String::from_str(p)),
                }
            }
        },
    }
}

/// The warning printed when the clipboard could not be written.
pub fn clipboard_warning(reason: &str) -> (r: String)
    ensures
        r@ == "warn: failed to set clipboard ("@ + reason@ + ")"@,
{
    let mut w = String::from_str("warn: failed to set clipboard (");
    w.append(reason);
    w.append(")");
    w
}

} // verus!
