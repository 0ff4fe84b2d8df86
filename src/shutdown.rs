use vstd::prelude::*;
use tokio::sync::watch::{Receiver, Sender};

verus! {

#[verifier::external_type_specification]
#[verifier::external_body]
#[verifier::reject_recursive_types(T)]
pub struct ExWatchSender<T>(Sender<T>);

#[verifier::external_type_specification]
#[verifier::external_body]
#[verifier::reject_recursive_types(T)]
pub struct ExWatchReceiver<T>(Receiver<T>);

/// Relies on tokio::sync::watch::channel: a new channel holding `init`.
#[verifier::external_body]
fn watch_channel(init: bool) -> (r: (Sender<bool>, Receiver<bool>)) {
    tokio::sync::watch::channel(init)
}

/// Relies on tokio::sync::watch::Sender::send_replace: stores `value` for
/// every receiver, present or later, whether or not any receiver exists.
#[verifier::external_body]
fn watch_store(tx: &Sender<bool>, value: bool) {
    tx.send_replace(value);
}

/// Relies on tokio::sync::watch::Sender::subscribe: a new receiver of the
/// same channel.
#[verifier::external_body]
fn watch_subscribe(tx: &Sender<bool>) -> (r: Receiver<bool>) {
    tx.subscribe()
}

/// Relies on tokio::sync::watch::Receiver::borrow: the value the channel
/// holds now; it changes whenever the sender stores.
#[verifier::external_body]
fn watch_load(rx: &Receiver<bool>) -> (r: bool) {
    *rx.borrow()
}

/// What a signal's request flag becomes once shutdown is requested: it
/// latches, whatever it was.
pub open spec fn after_request(requested: bool) -> bool {
    true
}

/// The single-writer side of a latched one-shot broadcast.  The flag it keeps
/// is the value it last stored in the channel.
pub struct ShutdownSignal {
    tx: Sender<bool>,
    requested: bool,
}

impl View for ShutdownSignal {
    type V = bool;

    closed spec fn view(&self) -> bool {
        self.requested
    }
}

/// A reader of a shutdown signal, handed to one background task.
pub struct ShutdownObserver {
    rx: Receiver<bool>,
    latched: bool,
}

impl View for ShutdownObserver {
    type V = bool;

    /// Whether shutdown had already been requested when this observer was
    /// made.
    closed spec fn view(&self) -> bool {
        self.latched
    }
}

impl ShutdownSignal {
    /// A fresh signal that has not fired.
    pub fn new() -> (r: Self)
        ensures
            r@ == false,
    {
        let (tx, _rx) = watch_channel(false);
        ShutdownSignal { tx, requested: false }
    }

    /// Fires the signal.  Only the first call stores into the channel; later
    /// calls change nothing.
    pub fn request_shutdown(&mut self)
        ensures
            final(self)@ == after_request(old(self)@),
            final(self)@,
    {
        if !self.requested {
            watch_store(&self.tx, true);
            self.requested = true;
        }
    }

    /// Whether the signal has fired.
    pub fn is_requested(&self) -> (r: bool)
        ensures
            r == self@,
    {
        self.requested
    }

    /// A new observer.  One made after the signal fired sees it at once.
    pub fn subscribe(&self) -> (r: ShutdownObserver)
        ensures
            r@ == self@,
    {
        ShutdownObserver { rx: watch_subscribe(&self.tx), latched: self.requested }
    }
}

impl ShutdownObserver {
    /// Whether shutdown has been requested, as far as this observer knows.
    /// It is always true for an observer made after the signal fired.
    pub fn is_requested(&self) -> (r: bool)
        ensures
            self@ ==> r,
    {
        self.latched || watch_load(&self.rx)
    }

    /// The channel receiver, for a task that awaits the next change.
    pub fn receiver(&self) -> &Receiver<bool> {
        &self.rx
    }
}

/// Requesting shutdown twice leaves the signal as one request does.
pub proof fn lemma_request_idempotent(requested: bool)
    ensures
        after_request(after_request(requested)) == after_request(requested),
        after_request(requested),
{
}

/// An observer made after a request sees the request at once: the signal's
/// flag after the request, the observer's latch taken from it at
/// subscription, and its first poll, related as `request_shutdown`,
/// `subscribe` and `is_requested` state.
pub proof fn lemma_latched_after_request(before: bool, after: bool, latched: bool, polled: bool)
    requires
        after == after_request(before),
        latched == after,
        latched ==> polled,
    ensures
        polled,
{
}

} // verus!
