//! The client handle of the transport that stays on one thread, over a
//! bounded queue. The task of a call fills the reply slot only where the
//! service gave a response.

use vstd::prelude::*;
use tokio::sync::mpsc;
use tokio::sync::oneshot;
use crate::runtime::Request;

verus! {

/// The client side of a bounded queue.
#[verifier::reject_recursive_types(X)]
#[verifier::reject_recursive_types(Y)]
pub struct ClientService<X, Y> {
    tx: mpsc::Sender<Request<X, Y>>,
}

impl<X, Y> ClientService<X, Y> {
    /// The sender that the handle puts its requests on.
    pub closed spec fn queue(&self) -> mpsc::Sender<Request<X, Y>> {
        self.tx
    }

    /// A handle that puts its requests on `tx`.
    pub fn new(tx: mpsc::Sender<Request<X, Y>>) -> (chan: Self)
        ensures
            chan.queue() == tx,
    {
        ClientService { tx }
    }

    /// The sender that the handle puts its requests on.
    pub fn sender(&self) -> (tx: &mpsc::Sender<Request<X, Y>>)
        ensures
            *tx == self.queue(),
    {
        &self.tx
    }

    /// The request that carries a call: the payload and the reply slot.
    pub fn request(&self, inner: X, tx: oneshot::Sender<Y>) -> (req: Request<X, Y>)
        ensures
            req == (Request { inner, tx }),
    {
        Request { inner, tx }
    }
}

} // verus!
