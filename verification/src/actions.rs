//! Hooks that mark which built-in action was selected.
//!
//! The commands that the built-in buttons actually run come from the
//! resolved configuration; these hooks exist so a front end can note the
//! selection itself before the configured command is spawned.

use vstd::prelude::*;

verus! {

/// Marks that the shutdown action was selected; the configured command
/// itself is run by the caller.
pub fn do_shutdown() {
}

/// Marks that the reboot action was selected; the configured command
/// itself is run by the caller.
pub fn do_reboot() {
}

} // verus!
