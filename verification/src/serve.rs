//! Arguments of the serve command.

use vstd::prelude::*;

verus! {

/// The serve command takes no arguments of its own.
#[derive(Clone, Copy, Debug, PartialEq, Eq, Structural)]
pub struct Args {}

impl Default for Args {
    /// The default serve arguments: there is nothing to set.
    fn default() -> (r: Args)
        ensures
            r == (Args {  }),
    {
        Args {  }
    }
}

} // verus!
