//! The availability check: interpreting what a version query of the
//! external engine reported.

use crate::text::{find_char, find_char_spec, trim_blanks, trim_spec};
use crate::types::EngineOutcome;
use vstd::prelude::*;
use vstd::string::{StrSliceExecFns, StringExecFns};

verus! {

/// The version string reported for a clean exit: the first line of the
/// banner, trimmed of surrounding whitespace, or a fixed note when the
/// engine printed nothing at all.
pub open spec fn version_line_spec(stdout: Seq<char>) -> Seq<char> {
    if stdout.len() == 0 {
        "FFmpeg installed"@
    } else {
        trim_spec(stdout.take(find_char_spec(stdout, '\n')))
    }
}

/// Interprets a version query: a clean exit yields the engine's
/// self-reported version line; a non-zero exit distinguishes "installed
/// but erroring" from a launch failure's "not installed / not on path".
pub fn interpret_version_check(outcome: &EngineOutcome) -> (r: Result<String, String>)
    ensures
        outcome matches EngineOutcome::Exited { success: true, stdout, .. } ==> r matches Ok(v)
            && v@ == version_line_spec(stdout@),
        outcome matches EngineOutcome::Exited { success: false, .. } ==> r matches Err(e) && e@
            == "FFmpeg found but returned an error"@,
        outcome matches EngineOutcome::LaunchFailed { .. } ==> r matches Err(e) && e@
            == "FFmpeg is not installed or not in PATH"@,
{
    match outcome {
        EngineOutcome::Exited { success, stdout, .. } => {
            if *success {
                let n: usize = stdout.as_str().unicode_len();
                if n == 0 {
                    Ok(String::from_str("FFmpeg installed"))
                } else {
                    let k: usize = find_char(stdout.as_str(), '\n');
                    proof {
                        crate::text::lemma_find_char_props(stdout@, '\n');
                    }
                    let first = stdout.as_str().substring_char(0, k);
                    proof {
                        assert(first@ =~= stdout@.take(k as int));
                    }
                    Ok(trim_blanks(first))
                }
            } else {
                Err(String::from_str("FFmpeg found but returned an error"))
            }
        },
        EngineOutcome::LaunchFailed { .. } => {
            Err(String::from_str("FFmpeg is not installed or not in PATH"))
        },
    }
}

} // verus!
