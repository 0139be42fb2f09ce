//! The capability through which commits reach the running session.

use vstd::prelude::*;

verus! {

/// Side effects of a commit that the state manager cannot perform itself:
/// switching the process-wide interface locale and applying a keymap to the
/// active graphical session.
///
/// The manager consults `apply_keymap` only after every present field of a
/// request has passed validation, and commits the request in memory only if
/// that call succeeded. Neither method is given a contract: the manager's
/// own guarantees hold for every implementation.
pub trait LocaleBackend {
    /// Switches the process-wide active interface locale.
    fn set_service_locale(&mut self, locale: &str);

    /// Applies `keymap` to the active graphical session, returning a
    /// description of the failure if the session rejected it.
    fn apply_keymap(&mut self, keymap: &str) -> Result<(), String>;
}

} // verus!
