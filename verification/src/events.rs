//! Best-effort change notifications on a broadcast channel.

use crate::config::LocaleConfig;
use tokio::sync::broadcast::Sender;
use vstd::prelude::*;

verus! {

/// A change notification for independent subscribers.
///
/// One `L10nConfigChanged` is published per successful update, carrying
/// exactly the fields of that update. A separate `LocaleChanged` is
/// published when the interface locale switches, carrying the new locale
/// alone.
#[derive(Clone, Debug)]
pub enum Event {
    /// The configuration changed; the payload holds the applied fields.
    L10nConfigChanged(LocaleConfig),
    /// The interface locale switched to the payload.
    LocaleChanged { locale: String },
}

#[verifier::external_type_specification]
#[verifier::external_body]
#[verifier::reject_recursive_types(T)]
pub struct ExSender<T>(Sender<T>);

/// Relies on tokio's `broadcast::Sender::send`: a non-blocking, best-effort
/// fan-out. Its result says only whether any subscriber was present, and the
/// publisher ignores it; nothing further can be promised of it.
#[verifier::external_body]
pub(crate) fn send_event(events: &Sender<Event>, event: Event) -> (delivered: bool) {
    events.send(event).is_ok()
}

} // verus!
