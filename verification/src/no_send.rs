//! The client handle of the transport that stays on one thread, over a queue
//! without a bound. It has no identity: its calls are not tracked.

use vstd::prelude::*;
use tokio::sync::mpsc;
use tokio::sync::oneshot;
use crate::runtime::Request;

verus! {

/// The client side of a queue without a bound.
#[verifier::reject_recursive_types(X)]
#[verifier::reject_recursive_types(Y)]
pub struct ClientChannel<X, Y> {
    tx: mpsc::UnboundedSender<Request<X, Y>>,
}

impl<X, Y> ClientChannel<X, Y> {
    /// The sender that the handle puts its requests on.
    pub closed spec fn queue(&self) -> mpsc::UnboundedSender<Request<X, Y>> {
        self.tx
    }

    /// A handle that puts its requests on `tx`.
    pub fn new(tx: mpsc::UnboundedSender<Request<X, Y>>) -> (chan: Self)
        ensures
            chan.queue() == tx,
    {
        ClientChannel { tx }
    }

    /// The sender that the handle puts its requests on.
    pub fn sender(&self) -> (tx: &mpsc::UnboundedSender<Request<X, Y>>)
        ensures
            *tx == self.queue(),
    {
        &self.tx
    }

    /// The request that carries a call: the payload and the reply slot.
    pub fn request(&self, inner: X, tx: oneshot::Sender<Y>) -> (req: Request<X, Y>)
        ensures
            req == (Request { inner, tx }),
    {
        Request { inner, tx }
    }
}

} // verus!
