//! The call-dispatch runtime: what a client handle and a server loop decide.
//! Waiting (for the queue, for readiness, for a reply) is left to the caller;
//! what is sent, what is registered and what is reported is decided here.

use vstd::prelude::*;
use std::marker::PhantomData;
use futures::channel::oneshot;
use crate::runtime::ids::{IdSource, UNTRACKED, nth_identity};
use crate::runtime::registry::{Registry, told_after_cancel};

pub mod flights;
pub mod limit;
pub mod ids;
pub mod no_send;
pub mod registry;
pub mod send;

verus! {

/// A sending end of a `flume` channel.
#[verifier::external_type_specification]
#[verifier::external_body]
#[verifier::reject_recursive_types(T)]
pub struct ExFlumeSender<T>(flume::Sender<T>);

/// The receiving end of a `flume` channel.
#[verifier::external_type_specification]
#[verifier::external_body]
#[verifier::reject_recursive_types(T)]
pub struct ExFlumeReceiver<T>(flume::Receiver<T>);

/// The writing end of a `futures` one-shot channel: a reply slot.
#[verifier::external_type_specification]
#[verifier::external_body]
#[verifier::reject_recursive_types(T)]
pub struct ExReplySlot<T>(futures::channel::oneshot::Sender<T>);

/// The sending end of a `tokio` queue without a bound.
#[verifier::external_type_specification]
#[verifier::external_body]
#[verifier::reject_recursive_types(T)]
pub struct ExUnboundedSender<T>(tokio::sync::mpsc::UnboundedSender<T>);

/// The sending end of a bounded `tokio` queue.
#[verifier::external_type_specification]
#[verifier::external_body]
#[verifier::reject_recursive_types(T)]
pub struct ExBoundedSender<T>(tokio::sync::mpsc::Sender<T>);

/// The writing end of a `tokio` one-shot channel: a reply slot.
#[verifier::external_type_specification]
#[verifier::external_body]
#[verifier::reject_recursive_types(T)]
pub struct ExTokioReplySlot<T>(tokio::sync::oneshot::Sender<T>);

/// A call on its way to a server loop that tracks no identities: the payload
/// and the slot for the reply.
#[verifier::reject_recursive_types(Y)]
pub struct Request<X, Y> {
    pub inner: X,
    pub tx: tokio::sync::oneshot::Sender<Y>,
}

/// How a call can fail in transport. Neither is a failure of the
/// application: that one travels inside the reply.
#[derive(Debug, Clone, Copy, PartialEq, Eq, Structural)]
pub enum Error {
    /// The request could not be put on the queue: the server loop is gone.
    SendError,
    /// The reply slot was dropped before it was filled: the task failed, was
    /// cancelled, or the server loop shut down. Whether the call ran is not
    /// known.
    RecvError,
}

/// What travels from a client handle to the server loop.
#[verifier::reject_recursive_types(Y)]
pub enum CoreRequest<X, Y> {
    /// A call: its payload, the slot for its reply and the identity of the
    /// handle that made it.
    AppRequest { inner: X, tx: oneshot::Sender<Y>, stream_id: u64 },
    /// The notice that the handle with this identity is gone.
    Cancel { stream_id: u64 },
}

impl<X, Y> CoreRequest<X, Y> {
    /// The identity under which the item was sent.
    pub open spec fn identity(self) -> u64 {
        match self {
            CoreRequest::AppRequest { stream_id, .. } => stream_id,
            CoreRequest::Cancel { stream_id } => stream_id,
        }
    }
}

/// A call that waits for the readiness check: the loop has taken it from the
/// queue and numbered its task, and the service has not yet been asked
/// whether it is ready. What the call carries can be had only by letting it
/// through with `release`.
#[verifier::reject_recursive_types(Y)]
pub struct PendingCall<X, Y> {
    inner: X,
    tx: oneshot::Sender<Y>,
    stream_id: u64,
    task: u64,
}

/// A call that is past the readiness check: the loop is to invoke the service
/// on `inner`, spawn the future as the task `task` and register it under
/// `stream_id`; the task puts its result into `tx` and reports its end.
/// `ready` tells whether the service's check reported that it is ready; where
/// it is not set, the check reported a failure, which was dropped.
#[verifier::reject_recursive_types(Y)]
pub struct ReadyCall<X, Y> {
    pub inner: X,
    pub tx: oneshot::Sender<Y>,
    pub stream_id: u64,
    pub task: u64,
    pub ready: bool,
}

impl<X, Y> PendingCall<X, Y> {
    /// The call as it will be past the check, let through with `ready`.
    pub closed spec fn released(self, ready: bool) -> ReadyCall<X, Y> {
        ReadyCall {
            inner: self.inner,
            tx: self.tx,
            stream_id: self.stream_id,
            task: self.task,
            ready,
        }
    }

    /// Lets the call through, once the service's check for readiness has
    /// resolved, with what the check reported. The call
    /// goes through whatever was reported: the check holds a call back while
    /// it is pending, and a failure that it reports is dropped.
    pub fn release<E>(self, readiness: Result<(), E>) -> (call: ReadyCall<X, Y>)
        ensures
            call == self.released(readiness is Ok),
    {
        let ready = match readiness {
            Ok(()) => true,
            Err(_) => false,
        };
        ReadyCall {
            inner: self.inner,
            tx: self.tx,
            stream_id: self.stream_id,
            task: self.task,
            ready,
        }
    }
}

/// Whether `call` is what an item of the queue asks for: for a request, the
/// call that carries the request's payload and reply slot under its identity,
/// as the task `task`; for a cancellation notice, none.
pub open spec fn asks_for<X, Y>(
    req: CoreRequest<X, Y>,
    task: u64,
    call: Option<PendingCall<X, Y>>,
) -> bool {
    match req {
        CoreRequest::AppRequest { inner, tx, stream_id } => {
            &&& call matches Some(pending)
            &&& forall|ready: bool| #[trigger]
                pending.released(ready) == (ReadyCall { inner, tx, stream_id, task, ready })
        },
        CoreRequest::Cancel { .. } => call is None,
    }
}

/// Handles one item taken from the queue. Whatever the item, the task
/// registered under its identity is cancelled and taken out of the registry:
/// a newer request supersedes an older one of the same handle, and a notice
/// says that the handle is gone. A request is handed back as a call that
/// waits for the readiness check, with the number of its task; a notice asks
/// for nothing more.
pub fn dispatch<X, Y>(registry: &mut Registry, req: CoreRequest<X, Y>) -> (call: Option<
    PendingCall<X, Y>,
>)
    ensures
        final(registry)@ == old(registry)@.remove(req.identity()),
        final(registry).told() == told_after_cancel(
            old(registry).told(),
            old(registry)@,
            req.identity(),
        ),
        final(registry).next_task() == if req is AppRequest {
            nth_identity(old(registry).next_task(), 1)
        } else {
            old(registry).next_task()
        },
        asks_for(req, old(registry).next_task(), call),
{
    match req {
        CoreRequest::AppRequest { inner, tx, stream_id } => {
            registry.cancel(stream_id);
            let task = registry.draw_task();
            Some(PendingCall { inner, tx, stream_id, task })
        },
        CoreRequest::Cancel { stream_id } => {
            registry.cancel(stream_id);
            None
        },
    }
}

/// Decides whether the call is made once the service's check for readiness
/// has resolved. It is made whatever the check reported: the check holds a
/// call back while it is pending, and a failure that it reports is dropped.
pub fn proceeds<E>(readiness: Result<(), E>) -> (go: bool)
    ensures
        go,
{
    match readiness {
        Ok(()) => true,
        Err(_) => true,
    }
}

/// What the task of a call puts into the reply slot: the response where the
/// service gave one, nothing where it failed.
pub open spec fn slot_content<Y, E>(result: Result<Y, E>) -> Option<Y> {
    match result {
        Ok(rep) => Some(rep),
        Err(_) => None,
    }
}

/// Decides what the task of a call puts into the reply slot.
pub fn reply_of<Y, E>(result: Result<Y, E>) -> (reply: Option<Y>)
    ensures
        reply == slot_content(result),
{
    match result {
        Ok(rep) => Some(rep),
        Err(_) => None,
    }
}

/// How a call ends for the caller: with a send failure where the request
/// did not reach the queue, with a receive failure where the slot was dropped
/// empty, and else with the reply as it was put into the slot.
pub open spec fn outcome<Y>(sent: bool, reply: Option<Y>) -> Result<Y, Error> {
    if !sent {
        Err(Error::SendError)
    } else {
        match reply {
            Some(rep) => Ok(rep),
            None => Err(Error::RecvError),
        }
    }
}

/// Decides how a call ends for the caller, from whether the request was
/// sent and from what came out of the reply slot.
pub fn conclude<Y>(sent: bool, reply: Option<Y>) -> (res: Result<Y, Error>)
    ensures
        res == outcome(sent, reply),
{
    if !sent {
        return Err(Error::SendError);
    }
    match reply {
        Some(rep) => Ok(rep),
        None => Err(Error::RecvError),
    }
}

/// Round trip: where the request was sent and the service gave a response,
/// the caller gets that response, as it is.
pub proof fn lemma_round_trip<Y, E>(rep: Y)
    ensures
        outcome(true, slot_content(Ok::<Y, E>(rep))) == Ok::<Y, Error>(rep),
{
}

/// The two failures of the transport are told apart, and neither is taken
/// for a response: a request that was not sent ends in a send failure
/// whatever the slot holds, and a slot that was dropped empty, as it is where
/// the service failed or the task panicked or was cancelled, ends in a receive
/// failure.
pub proof fn lemma_transport_failures<Y, E>(reply: Option<Y>, e: E)
    ensures
        outcome(false, reply) == Err::<Y, Error>(Error::SendError),
        outcome(true, None::<Y>) == Err::<Y, Error>(Error::RecvError),
        outcome(true, slot_content(Err::<Y, E>(e))) == Err::<Y, Error>(Error::RecvError),
{
}

/// Calls `flume::unbounded`, which makes a channel without a bound.
///
/// Trusted: the call returns the two ends. Nothing is claimed of them.
#[verifier::external_body]
fn unbounded<T>() -> (ends: (flume::Sender<T>, flume::Receiver<T>)) {
    flume::unbounded()
}

/// Calls `flume::Sender::clone`.
///
/// Trusted: the new sender is a sender of the same channel as `tx`: it holds
/// the same shared state, and is the same value as far as a sender has one.
#[verifier::external_body]
fn clone_sender<T>(tx: &flume::Sender<T>) -> (other: flume::Sender<T>)
    ensures
        other == *tx,
{
    tx.clone()
}

/// Calls `flume::Sender::send`. On a channel without a bound it does not
/// wait.
///
/// Trusted: the result tells whether the message was put on the queue; it
/// was not where every receiver is gone. Which of the two happens is not
/// claimed.
#[verifier::external_body]
fn send_now<T>(tx: &flume::Sender<T>, msg: T) -> (sent: bool) {
    tx.send(msg).is_ok()
}

/// The client side of the transport: a handle with an identity of its own.
#[verifier::reject_recursive_types(X)]
#[verifier::reject_recursive_types(Y)]
pub struct Channel<X, Y> {
    stream_id: u64,
    tx: flume::Sender<CoreRequest<X, Y>>,
}

impl<X, Y> Channel<X, Y> {
    /// The identity of the handle.
    pub closed spec fn identity(&self) -> u64 {
        self.stream_id
    }

    /// The sender that the handle puts its requests on.
    pub closed spec fn queue(&self) -> flume::Sender<CoreRequest<X, Y>> {
        self.tx
    }

    /// The first handle of a queue. It has the untracked identity. Handles
    /// are made by `ServerBuilder::build` alone, on a queue without a bound.
    pub(crate) fn new(tx: flume::Sender<CoreRequest<X, Y>>) -> (chan: Self)
        ensures
            chan.identity() == UNTRACKED,
            chan.queue() == tx,
    {
        Channel { stream_id: UNTRACKED, tx }
    }

    /// The identity of the handle.
    pub fn stream_id(&self) -> (id: u64)
        ensures
            id == self.identity(),
    {
        self.stream_id
    }

    /// The sender that the handle puts its requests on.
    pub fn sender(&self) -> (tx: &flume::Sender<CoreRequest<X, Y>>)
        ensures
            *tx == self.queue(),
    {
        &self.tx
    }

    /// Another handle of the same queue, with an identity of its own, which
    /// is drawn from the counter that the clones of the first handle share.
    pub fn clone_with(&self, ids: &mut IdSource) -> (chan: Self)
        ensures
            chan.identity() == old(ids).next(),
            chan.queue() == self.queue(),
            final(ids).next() == nth_identity(old(ids).next(), 1),
    {
        let stream_id = ids.draw();
        Channel { stream_id, tx: clone_sender(&self.tx) }
    }

    /// The request that carries a call of this handle: the payload, the
    /// reply slot and the handle's identity.
    pub fn request(&self, inner: X, tx: oneshot::Sender<Y>) -> (req: CoreRequest<X, Y>)
        ensures
            req == (CoreRequest::AppRequest { inner, tx, stream_id: self.identity() }),
    {
        CoreRequest::AppRequest { inner, tx, stream_id: self.stream_id }
    }

    /// The notice that says that this handle is gone.
    pub fn cancel_notice(&self) -> (req: CoreRequest<X, Y>)
        ensures
            req == (CoreRequest::<X, Y>::Cancel { stream_id: self.identity() }),
    {
        CoreRequest::Cancel { stream_id: self.stream_id }
    }

    /// Sends the notice that this handle is gone, as the handle does when it
    /// is dropped. Nobody acknowledges it; the result tells whether it was
    /// put on the queue.
    pub fn send_cancel(&self) -> (sent: bool) {
        send_now(&self.tx, self.cancel_notice())
    }
}

/// The server side of the transport: the service and the receiving end of
/// the queue.
#[verifier::reject_recursive_types(X)]
#[verifier::reject_recursive_types(Y)]
pub struct Server<X, Y, Svc> {
    service: Svc,
    rx: flume::Receiver<CoreRequest<X, Y>>,
}

impl<X, Y, Svc> Server<X, Y, Svc> {
    /// The service that the server calls.
    pub closed spec fn service(&self) -> Svc {
        self.service
    }

    /// The end of the queue that the server takes its items from.
    pub closed spec fn queue(&self) -> flume::Receiver<CoreRequest<X, Y>> {
        self.rx
    }

    /// A server for `service` on the receiving end `rx`.
    pub fn new(rx: flume::Receiver<CoreRequest<X, Y>>, service: Svc) -> (server: Self)
        ensures
            server.service() == service,
            server.queue() == rx,
    {
        Server { service, rx }
    }

    /// The service and the receiving end, for the loop that drives them.
    pub fn into_parts(self) -> (parts: (Svc, flume::Receiver<CoreRequest<X, Y>>))
        ensures
            parts.0 == self.service(),
            parts.1 == self.queue(),
    {
        (self.service, self.rx)
    }
}

/// Builds the connected pair of a client handle and a server.
pub struct ServerBuilder<X, Svc> {
    svc: Svc,
    phantom_x: PhantomData<X>,
}

impl<X, Svc> ServerBuilder<X, Svc> {
    /// The service that the server will call.
    pub closed spec fn service(&self) -> Svc {
        self.svc
    }

    /// A builder for a server of `svc`.
    pub fn new(svc: Svc) -> (builder: Self)
        ensures
            builder.service() == svc,
    {
        ServerBuilder { svc, phantom_x: PhantomData }
    }

    /// Makes a queue without a bound and hands out its two sides: the first
    /// client handle, with the untracked identity, and the server of the
    /// service.
    pub fn build<Y>(self) -> (pair: (Channel<X, Y>, Server<X, Y, Svc>))
        ensures
            pair.0.identity() == UNTRACKED,
            pair.1.service() == self.service(),
    {
        let (tx, rx) = unbounded();
        let server = Server::new(rx, self.svc);
        let chan = Channel::new(tx);
        (chan, server)
    }
}

} // verus!
