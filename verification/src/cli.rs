//! The command line: an optional `-n`, then the input file.

use vstd::prelude::*;
use vstd::string::StringExecFns;

verus! {

/// What one run was asked to do.
#[derive(Clone, Debug, PartialEq, Eq)]
pub struct Invocation {
    /// Leave the background transparent.
    pub no_background: bool,
    /// The audio file to read.
    pub input_path: String,
}

/// Why a command line is refused.
#[derive(Clone, Copy, Debug, PartialEq, Eq, Structural)]
pub enum UsageError {
    /// No input file was named.
    MissingInput,
}

/// The flag that switches the background off.
pub open spec fn no_background_flag() -> Seq<char> {
    seq!['-', 'n']
}

/// Whether the arguments begin with the flag.
pub open spec fn has_flag(args: Seq<String>) -> bool {
    args.len() > 0 && args[0]@ == no_background_flag()
}

/// Position of the input file among the arguments.
pub open spec fn input_position(args: Seq<String>) -> int {
    if has_flag(args) {
        1
    } else {
        0
    }
}

/// Reads the arguments that follow the program's name. The flag counts only
/// in first place; the argument after it, or the first argument where there is
/// no flag, is the input file, and whatever follows is ignored.
pub fn parse_args(args: &Vec<String>) -> (r: Result<Invocation, UsageError>)
    ensures
        r is Ok <==> input_position(args@) < args.len(),
        r matches Ok(invocation) ==> invocation.no_background == has_flag(args@)
            && invocation.input_path@ == args[input_position(args@)]@,
        r matches Err(e) ==> e == UsageError::MissingInput,
{
    if args.len() == 0 {
        return Err(UsageError::MissingInput);
    }
    proof {
        reveal_strlit("-n");
    }
    let flag = String::from_str("-n");
    assert(flag@ =~= no_background_flag());
    if args[0] == flag {
        if args.len() < 2 {
            Err(UsageError::MissingInput)
        } else {
            Ok(Invocation { no_background: true, input_path: args[1].clone() })
        }
    } else {
        Ok(Invocation { no_background: false, input_path: args[0].clone() })
    }
}

/// Name of the image written for an input whose file stem is `stem`.
pub fn output_name(stem: &str) -> (name: String)
    ensures
        name@ == stem@ + seq!['.', 'p', 'n', 'g'],
{
    proof {
        reveal_strlit(".png");
    }
    let name = String::from_str(stem).concat(".png");
    assert(".png"@ =~= seq!['.', 'p', 'n', 'g']);
    name
}

} // verus!
