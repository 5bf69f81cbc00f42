use crate::resolver::Credentials;
use std::sync::Arc;
use tokio::sync::watch::{Receiver as TokioReceiver, Sender as TokioSender};
use vstd::prelude::*;

verus! {

/// The writer's end of the channel that carries credential snapshots.
pub type SnapshotSender = TokioSender<Arc<Credentials>>;

/// A reader's end of the channel that carries credential snapshots.
pub type SnapshotReceiver = TokioReceiver<Arc<Credentials>>;

#[verifier::external_type_specification]
#[verifier::external_body]
#[verifier::reject_recursive_types(T)]
pub struct ExWatchSender<T>(TokioSender<T>);

#[verifier::external_type_specification]
#[verifier::external_body]
#[verifier::reject_recursive_types(T)]
pub struct ExWatchReceiver<T>(TokioReceiver<T>);

/// Relies on tokio's `watch::channel`, seeded with the first snapshot.
#[verifier::external_body]
fn open_channel(init: Arc<Credentials>) -> (r: (SnapshotSender, SnapshotReceiver)) {
    tokio::sync::watch::channel(init)
}

/// Relies on tokio's `watch::Sender::send`; its failure when no receiver is
/// left is of no concern to the writer.
#[verifier::external_body]
fn send(tx: &SnapshotSender, snapshot: Arc<Credentials>) {
    let _ = tx.send(snapshot);
}

/// Relies on tokio's `watch::Receiver::borrow`: a copy of the newest snapshot,
/// which another thread may have replaced.
#[verifier::external_body]
pub(crate) fn latest(rx: &SnapshotReceiver) -> (r: Arc<Credentials>) {
    rx.borrow().clone()
}

/// Relies on tokio's `Clone` of `watch::Receiver`: one more handle on the
/// same channel.
pub assume_specification<T>[ <TokioReceiver<T> as Clone>::clone ](
    rx: &TokioReceiver<T>,
) -> TokioReceiver<T>;

/// The single writer of the channel, which remembers what it sent last.
pub struct Publisher {
    tx: SnapshotSender,
    last: Ghost<Arc<Credentials>>,
}

impl Publisher {
    /// The snapshot sent last, or the one the channel was opened with.
    pub closed spec fn last_sent(&self) -> Arc<Credentials> {
        self.last@
    }

    /// Sends `snapshot` to every receiver.
    pub fn publish(&mut self, snapshot: Arc<Credentials>)
        ensures
            final(self).last_sent() == snapshot,
    {
        send(&self.tx, Arc::clone(&snapshot));
        self.last = Ghost(snapshot);
    }
}

/// Opens the channel with `init` as its first snapshot.
pub fn channel(init: Arc<Credentials>) -> (r: (Publisher, SnapshotReceiver))
    ensures
        r.0.last_sent() == init,
{
    let (tx, rx) = open_channel(Arc::clone(&init));
    (Publisher { tx, last: Ghost(init) }, rx)
}

} // verus!
