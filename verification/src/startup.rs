//! What the arguments of the program ask for.

use vstd::prelude::*;
use vstd::string::*;

verus! {

/// The most arguments that the program takes, its own name counted.
pub const MAX_ARGUMENTS: usize = 2;

/// The status with which the program ends when it was given too many
/// arguments.
pub const EXIT_TOO_MANY_ARGUMENTS: i32 = 101;

/// More arguments were given than the program takes.
#[derive(Clone, Copy, Debug, PartialEq, Eq, Structural)]
pub struct TooManyArguments {
    /// How many were given, the program's own name counted.
    pub count: usize,
}

/// What the arguments ask for. `args` holds the program's own name and what
/// followed it. More than one argument after the name is an error. Cheat mode
/// is on where the one argument is the word `cheat`, and off otherwise.
pub open spec fn cheat_mode_of(args: Seq<Seq<char>>) -> Result<bool, TooManyArguments> {
    if args.len() > MAX_ARGUMENTS {
        Err(TooManyArguments { count: args.len() as usize })
    } else {
        Ok(args.len() > 1 && args[1] == "cheat"@)
    }
}

/// What the arguments of the program ask for: cheat mode or not, or the
/// error of too many arguments.
pub fn cheat_mode_from_args(args: &Vec<String>) -> (mode: Result<bool, TooManyArguments>)
    ensures
        mode == cheat_mode_of(args.deep_view()),
{
    let count: usize = args.len();
    if count > MAX_ARGUMENTS {
        return Err(TooManyArguments { count });
    }
    if count > 1 {
        Ok(args[1] == "cheat".to_owned())
    } else {
        Ok(false)
    }
}

} // verus!
