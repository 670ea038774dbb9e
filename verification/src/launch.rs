//! Command-line flags the app is launched with.

use vstd::prelude::*;

use crate::text::str_eq;

verus! {

/// Flag the autostart launcher passes so a login-time start stays in the background
/// (no settings window), while a manual launch opens the window.
pub const HIDDEN_FLAG: &'static str = "--hidden";

/// Flag that asks a running instance to exit.
pub const QUIT_FLAG: &'static str = "--quit";

/// Whether any argument is exactly `flag`.
pub fn has_flag(args: &Vec<String>, flag: &str) -> (r: bool)
    ensures
        r == exists|i: int| 0 <= i < args@.len() && (#[trigger] args@[i])@ == flag@,
{
    let mut i: usize = 0;
    while i < args.len()
        invariant
            i <= args@.len(),
            forall|k: int| 0 <= k < i ==> (#[trigger] args@[k])@ != flag@,
        decreases args@.len() - i,
    {
        if str_eq(args[i].as_str(), flag) {
            return true;
        }
        i = i + 1;
    }
    false
}

} // verus!
