//! The command line.

use vstd::prelude::*;
use crate::text::{same_text, texts};

verus! {

/// Whether an argument asks for help.
pub open spec fn is_help(arg: Seq<char>) -> bool {
    arg == "-h"@ || arg == "--help"@ || arg == "help"@
}

/// Whether any of some arguments asks for help.
pub open spec fn asks_for_help(args: Seq<Seq<char>>) -> bool {
    exists|i: int| 0 <= i < args.len() && is_help(#[trigger] args[i])
}

/// Whether any of the arguments asks for help.
pub fn wants_help(args: &Vec<String>) -> (r: bool)
    ensures
        r == exists|i: int| 0 <= i < args@.len() && is_help(#[trigger] texts(args@)[i]),
        r == asks_for_help(texts(args@)),
{
    let mut i: usize = 0;
    while i < args.len()
        invariant
            i <= args@.len(),
            forall|j: int| 0 <= j < i ==> !is_help(#[trigger] texts(args@)[j]),
        decreases args@.len() - i,
    {
        let arg = args[i].as_str();
        assert(texts(args@)[i as int] == arg@);
        if same_text(arg, "-h") || same_text(arg, "--help") || same_text(arg, "help") {
            return true;
        }
        i += 1;
    }
    false
}

} // verus!
