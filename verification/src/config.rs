use vstd::prelude::*;
use vstd::string::StrSliceExecFns;

verus! {

/// The log level chosen by the number of verbosity flags the operator
/// passed: zero means errors only, each further flag adds detail, and four
/// or more mean full tracing.
pub open spec fn spec_level_for_verbosity(verbose_count: u8) -> Seq<char> {
    if verbose_count == 0 {
        "Error"@
    } else if verbose_count == 1 {
        "Warn"@
    } else if verbose_count == 2 {
        "Info"@
    } else if verbose_count == 3 {
        "Debug"@
    } else {
        "Trace"@
    }
}

/// Maps the operator's verbosity count to the telemetry level name the
/// logging setup understands.
pub fn level_for_verbosity(verbose_count: u8) -> (r: &'static str)
    ensures
        r@ == spec_level_for_verbosity(verbose_count),
{
    match verbose_count {
        0 => "Error",
        1 => "Warn",
        2 => "Info",
        3 => "Debug",
        _ => "Trace",
    }
}

/// A destination the operator may create the workspace under: non-empty and
/// explicitly relative, that is, starting with `./`.
pub open spec fn is_relative_destination(path: Seq<char>) -> bool {
    path.len() >= 2 && path[0] == '.' && path[1] == '/'
}

/// Why a proposed workspace destination is rejected: nothing was typed, or
/// the path is not an explicitly relative one.
#[derive(Debug, Clone, Copy, PartialEq, Eq, Structural)]
pub enum DestinationError {
    Empty,
    NotRelative,
}

/// Checks the destination path the operator typed for the workspace: it must
/// be non-empty and start with `./`.  An empty input is reported as such; a
/// non-empty one that is not explicitly relative is rejected for that.
pub fn validate_destination(path: &str) -> (r: Result<(), DestinationError>)
    ensures
        (r is Ok) == (path@.len() > 0 && is_relative_destination(path@)),
        path@.len() == 0 ==> (r matches Err(e) && e == DestinationError::Empty),
        (path@.len() > 0 && !is_relative_destination(path@)) ==> (r matches Err(e) && e
            == DestinationError::NotRelative),
{
    let n = path.unicode_len();
    if n == 0 {
        Err(DestinationError::Empty)
    } else if n >= 2 && path.get_char(0) == '.' && path.get_char(1) == '/' {
        Ok(())
    } else {
        Err(DestinationError::NotRelative)
    }
}

} // verus!
