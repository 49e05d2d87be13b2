//! The client handle of the transport whose payloads may cross threads, over
//! a bounded queue. The task of a call puts the service's result into the
//! reply slot as it is, a failure too, so that a failure of the application
//! reaches the caller and can be told from a failure of the transport.

use vstd::prelude::*;
use tokio::sync::mpsc;
use tokio::sync::oneshot;
use crate::runtime::{Error, Request};

verus! {

/// The client side of a bounded queue.
#[verifier::reject_recursive_types(X)]
#[verifier::reject_recursive_types(Y)]
pub struct ClientService<X, Y> {
    tx: mpsc::Sender<Request<X, Y>>,
}

/// Why a call gave no response.
#[derive(Debug, Clone, Copy, PartialEq, Eq)]
pub enum Failure<E> {
    /// The transport failed.
    Transport(Error),
    /// The service failed, with this error.
    Service(E),
}

/// How a call ends for the caller where the reply slot carries the
/// service's result: with a failure of the transport where the request was
/// not sent or the slot was dropped empty, and else with what the service
/// returned.
pub open spec fn outcome<Y, E>(sent: bool, reply: Option<Result<Y, E>>) -> Result<Y, Failure<E>> {
    if !sent {
        Err(Failure::Transport(Error::SendError))
    } else {
        match reply {
            Some(Ok(rep)) => Ok(rep),
            Some(Err(e)) => Err(Failure::Service(e)),
            None => Err(Failure::Transport(Error::RecvError)),
        }
    }
}

/// Decides how a call ends for the caller, from whether the request was
/// sent and from what came out of the reply slot.
pub fn conclude<Y, E>(sent: bool, reply: Option<Result<Y, E>>) -> (res: Result<Y, Failure<E>>)
    ensures
        res == outcome(sent, reply),
{
    if !sent {
        return Err(Failure::Transport(Error::SendError));
    }
    match reply {
        Some(Ok(rep)) => Ok(rep),
        Some(Err(e)) => Err(Failure::Service(e)),
        None => Err(Failure::Transport(Error::RecvError)),
    }
}

/// Round trip: where the request was sent and the slot was filled, the
/// caller gets what the service returned: its response as it is, or its
/// failure, which is no failure of the transport.
pub proof fn lemma_round_trip<Y, E>(result: Result<Y, E>)
    ensures
        outcome(true, Some(result)) == match result {
            Ok(rep) => Ok::<Y, Failure<E>>(rep),
            Err(e) => Err::<Y, Failure<E>>(Failure::Service(e)),
        },
{
}

impl<X, Y> ClientService<X, Y> {
    /// The sender that the handle puts its requests on.
    pub closed spec fn queue(&self) -> mpsc::Sender<Request<X, Y>> {
        self.tx
    }

    /// A handle that puts its requests on `tx`.
    pub fn new(tx: mpsc::Sender<Request<X, Y>>) -> (chan: Self)
        ensures
            chan.queue() == tx,
    {
        ClientService { tx }
    }

    /// The sender that the handle puts its requests on.
    pub fn sender(&self) -> (tx: &mpsc::Sender<Request<X, Y>>)
        ensures
            *tx == self.queue(),
    {
        &self.tx
    }

    /// The request that carries a call: the payload and the reply slot.
    pub fn request(&self, inner: X, tx: oneshot::Sender<Y>) -> (req: Request<X, Y>)
        ensures
            req == (Request { inner, tx }),
    {
        Request { inner, tx }
    }
}

} // verus!
