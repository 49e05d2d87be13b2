use std::collections::HashMap;

use futures::channel::oneshot;
use futures::future::AbortHandle;
use norpc::runtime::ids::{IdSource, UNTRACKED};
use norpc::runtime::registry::Registry;
use norpc::runtime::send;
use norpc::runtime::{
    conclude, dispatch, proceeds, reply_of, Channel, CoreRequest, Error, ReadyCall, Server,
    ServerBuilder,
};

fn handle() -> AbortHandle {
    AbortHandle::new_pair().0
}

#[test]
fn identities_start_at_one_and_go_up() {
    let mut ids = IdSource::new();
    assert_eq!(ids.draw(), 1);
    assert_eq!(ids.draw(), 2);
    assert_eq!(ids.draw(), 3);
    assert_eq!(UNTRACKED, 0);
}

#[test]
fn identities_of_clones_are_distinct() {
    let mut ids = IdSource::new();
    let mut seen = std::collections::HashSet::new();
    for _ in 0..10000 {
        let id = ids.draw();
        assert_ne!(id, UNTRACKED);
        assert!(seen.insert(id));
    }
}

#[test]
fn registry_starts_empty() {
    let mut registry = Registry::new();
    assert_eq!(registry.len(), 0);
    assert!(!registry.tracks(0));
    assert!(!registry.tracks(1));
    assert_eq!(registry.task_of(1), None);
    assert!(!registry.finish(1, 0));
}

#[test]
fn tasks_are_numbered_from_zero() {
    let mut registry = Registry::new();
    assert_eq!(registry.draw_task(), 0);
    assert_eq!(registry.draw_task(), 1);
    assert_eq!(registry.draw_task(), 2);
    assert_eq!(registry.len(), 0);
}

#[test]
fn register_replaces_and_cancel_signals() {
    let mut registry = Registry::new();
    let first = handle();
    let second = handle();
    registry.register(7, 0, first.clone(), true);
    assert!(registry.tracks(7));
    assert_eq!(registry.task_of(7), Some(0));
    assert_eq!(registry.len(), 1);
    assert!(!first.is_aborted());

    registry.register(7, 1, second.clone(), true);
    assert_eq!(registry.task_of(7), Some(1));
    assert_eq!(registry.len(), 1);

    // The handle that is held now is the second one.
    assert!(registry.cancel(7));
    assert!(second.is_aborted());
    assert!(!first.is_aborted());
    assert!(!registry.tracks(7));
    assert_eq!(registry.len(), 0);

    // Nothing is left to cancel.
    assert!(!registry.cancel(7));
}

#[test]
fn evict_hands_the_handle_out_without_a_signal() {
    let mut registry = Registry::new();
    let h = handle();
    registry.register(3, 12, h.clone(), true);
    let evicted = registry.evict(3).expect("an entry is held for 3");
    assert_eq!(evicted.task, 12);
    assert!(!h.is_aborted());
    evicted.handle.abort();
    assert!(h.is_aborted());
    assert!(registry.evict(3).is_none());
}

#[test]
fn untracked_identity_is_never_registered() {
    let mut registry = Registry::new();
    let h = handle();
    registry.register(UNTRACKED, 0, h.clone(), true);
    assert!(!registry.tracks(UNTRACKED));
    assert_eq!(registry.len(), 0);
    assert!(!registry.cancel(UNTRACKED));
    assert!(!registry.finish(UNTRACKED, 0));
    assert!(!h.is_aborted());
}

#[test]
fn a_task_that_could_not_be_spawned_is_aborted_and_not_registered() {
    let mut registry = Registry::new();
    let h = handle();
    registry.register(4, 0, h.clone(), false);
    assert!(h.is_aborted());
    assert!(!registry.tracks(4));
    let u = handle();
    registry.register(UNTRACKED, 1, u.clone(), false);
    assert!(u.is_aborted());
    assert!(!registry.tracks(UNTRACKED));
    // What was held before stays held.
    let held = handle();
    registry.register(5, 2, held.clone(), true);
    registry.register(5, 3, handle(), false);
    assert_eq!(registry.task_of(5), Some(2));
    assert!(!held.is_aborted());
}

#[test]
fn the_end_of_a_task_takes_its_entry_out() {
    let mut registry = Registry::new();
    let one = handle();
    let two = handle();
    registry.register(1, 10, one.clone(), true);
    registry.register(2, 11, two.clone(), true);

    assert!(registry.finish(1, 10));
    assert!(!registry.tracks(1));
    assert!(registry.tracks(2));
    assert_eq!(registry.len(), 1);
    // The end of a task tells nobody to abort.
    assert!(!one.is_aborted());
    assert!(!two.is_aborted());
    // The same end, told twice, does nothing more.
    assert!(!registry.finish(1, 10));
    assert_eq!(registry.len(), 1);
}

#[test]
fn the_end_of_a_superseded_task_leaves_its_successor() {
    let mut registry = Registry::new();
    let old = handle();
    let new = handle();
    registry.register(1, 10, old.clone(), true);
    assert!(registry.cancel(1));
    registry.register(1, 11, new.clone(), true);

    // The old task ends late: the entry is the successor's and stays.
    assert!(!registry.finish(1, 10));
    assert_eq!(registry.task_of(1), Some(11));
    assert!(!new.is_aborted());
    // Under another identity the number means nothing.
    assert!(!registry.finish(2, 11));
    assert_eq!(registry.task_of(1), Some(11));

    assert!(registry.finish(1, 11));
    assert_eq!(registry.len(), 0);
}

#[test]
fn cancel_spares_the_other_identities() {
    let mut registry = Registry::new();
    let one = handle();
    let two = handle();
    registry.register(1, 0, one.clone(), true);
    registry.register(2, 1, two.clone(), true);
    assert!(registry.cancel(1));
    assert!(one.is_aborted());
    assert!(!two.is_aborted());
    assert!(registry.tracks(2));
    assert!(!registry.tracks(1));
}

#[test]
fn dispatch_supersedes_the_older_call_of_the_same_identity() {
    let mut registry = Registry::new();
    let old = handle();
    let other = handle();
    let first = registry.draw_task();
    registry.register(5, first, old.clone(), true);
    let second = registry.draw_task();
    registry.register(6, second, other.clone(), true);

    let (tx, _rx) = oneshot::channel::<u8>();
    let call = dispatch(&mut registry, CoreRequest::AppRequest { inner: 11u32, tx, stream_id: 5 });
    let pending = call.expect("a request asks for a call");
    let ReadyCall { inner, stream_id, task, ready, .. } = pending.release::<()>(Ok(()));
    assert!(ready);
    assert_eq!(inner, 11);
    assert_eq!(stream_id, 5);
    assert_eq!(task, 2);
    assert!(old.is_aborted());
    assert!(!other.is_aborted());
    assert!(!registry.tracks(5));
    assert!(registry.tracks(6));

    let new = handle();
    registry.register(stream_id, task, new.clone(), true);
    assert_eq!(registry.task_of(5), Some(task));
    assert!(!new.is_aborted());

    // The superseded task ends late, then the new one ends.
    assert!(!registry.finish(5, first));
    assert!(registry.tracks(5));
    assert!(registry.finish(5, task));
    assert!(!registry.tracks(5));
    assert!(registry.tracks(6));
}

#[test]
fn dispatch_of_a_notice_cancels_and_asks_for_nothing() {
    let mut registry = Registry::new();
    let h = handle();
    registry.register(9, 0, h.clone(), true);
    let call = dispatch(&mut registry, CoreRequest::<u32, u8>::Cancel { stream_id: 9 });
    assert!(call.is_none());
    assert!(h.is_aborted());
    assert_eq!(registry.len(), 0);
    // A notice draws no number.
    assert_eq!(registry.draw_task(), 0);
    // A notice for an identity that has nothing registered does nothing.
    assert!(dispatch(&mut registry, CoreRequest::<u32, u8>::Cancel { stream_id: 9 }).is_none());
    assert!(dispatch(&mut registry, CoreRequest::<u32, u8>::Cancel { stream_id: 0 }).is_none());
}

#[test]
fn a_call_ends_in_its_reply_or_in_a_transport_failure() {
    assert_eq!(conclude(true, Some("rep")), Ok("rep"));
    assert_eq!(conclude::<&str>(true, None), Err(Error::RecvError));
    assert_eq!(conclude(false, Some("rep")), Err(Error::SendError));
    assert_eq!(conclude::<&str>(false, None), Err(Error::SendError));
    assert_ne!(Error::SendError, Error::RecvError);
}

#[test]
fn application_failures_travel_inside_the_reply() {
    let failed: Result<bool, ()> = Err(());
    assert_eq!(conclude(true, Some(failed)), Ok(Err(())));
    let fine: Result<bool, ()> = Ok(true);
    assert_eq!(conclude(true, Some(fine)), Ok(Ok(true)));
}

#[test]
fn a_failed_readiness_check_does_not_hold_the_call_back() {
    assert!(proceeds::<&str>(Ok(())));
    assert!(proceeds(Err("not ready, and never will be")));

    let mut registry = Registry::new();
    let (tx, _rx) = oneshot::channel::<u8>();
    let pending = dispatch(&mut registry, CoreRequest::AppRequest { inner: 3u32, tx, stream_id: 8 })
        .expect("a request asks for a call");
    let call = pending.release(Err("not ready, and never will be"));
    assert!(!call.ready);
    assert_eq!(call.inner, 3);
    assert_eq!(call.stream_id, 8);
    assert_eq!(call.task, 0);
}

#[test]
fn the_slot_is_filled_only_with_a_response() {
    assert_eq!(reply_of::<u8, ()>(Ok(3)), Some(3));
    assert_eq!(reply_of::<u8, &str>(Err("no")), None);
}

#[test]
fn send_variant_tells_service_failures_from_transport_failures() {
    assert_eq!(send::conclude::<u8, &str>(true, Some(Ok(1))), Ok(1));
    assert_eq!(send::conclude::<u8, &str>(true, Some(Err("app"))), Err(send::Failure::Service("app")));
    assert_eq!(
        send::conclude::<u8, &str>(true, None),
        Err(send::Failure::Transport(Error::RecvError))
    );
    assert_eq!(
        send::conclude::<u8, &str>(false, Some(Ok(1))),
        Err(send::Failure::Transport(Error::SendError))
    );
}

#[test]
fn channel_requests_carry_its_identity() {
    let (chan, server): (Channel<u32, u8>, Server<u32, u8, ()>) = ServerBuilder::new(()).build();
    let ((), rx) = server.into_parts();
    assert_eq!(chan.stream_id(), UNTRACKED);
    let mut ids = IdSource::new();
    for id in 1..4 {
        assert_eq!(chan.clone_with(&mut ids).stream_id(), id);
    }
    let clone = chan.clone_with(&mut ids);
    assert_eq!(clone.stream_id(), 4);
    assert_eq!(chan.stream_id(), UNTRACKED);

    let (slot, _reply) = oneshot::channel::<u8>();
    match clone.request(17, slot) {
        CoreRequest::AppRequest { inner, stream_id, .. } => {
            assert_eq!(inner, 17);
            assert_eq!(stream_id, 4);
        }
        CoreRequest::Cancel { .. } => panic!("a request was asked for"),
    }
    match chan.cancel_notice() {
        CoreRequest::Cancel { stream_id } => assert_eq!(stream_id, UNTRACKED),
        CoreRequest::AppRequest { .. } => panic!("a notice was asked for"),
    }

    // The clone sends on the same queue.
    assert!(clone.send_cancel());
    match rx.try_recv() {
        Ok(CoreRequest::Cancel { stream_id }) => assert_eq!(stream_id, 4),
        _ => panic!("the notice of the clone was expected"),
    }
    assert!(chan.sender().send(chan.cancel_notice()).is_ok());
    match rx.try_recv() {
        Ok(CoreRequest::Cancel { stream_id }) => assert_eq!(stream_id, UNTRACKED),
        _ => panic!("the notice of the first handle was expected"),
    }
    assert!(rx.try_recv().is_err());

    // With the server gone nothing can be sent.
    drop(rx);
    assert!(!clone.send_cancel());
}

#[test]
fn builder_hands_out_a_connected_pair() {
    let builder = ServerBuilder::<u32, &str>::new("service");
    let (chan, server): (Channel<u32, u8>, Server<u32, u8, &str>) = builder.build();
    assert_eq!(chan.stream_id(), UNTRACKED);
    let (service, rx) = server.into_parts();
    assert_eq!(service, "service");

    let (slot, _reply) = oneshot::channel::<u8>();
    assert!(chan.sender().send(chan.request(5, slot)).is_ok());
    match rx.try_recv() {
        Ok(CoreRequest::AppRequest { inner, stream_id, .. }) => {
            assert_eq!(inner, 5);
            assert_eq!(stream_id, UNTRACKED);
        }
        _ => panic!("the request was expected"),
    }
}

// A key-value store behind the transport, driven by hand: every step that the
// client handle and the server loop decide goes through the library.

enum KVStoreRequest {
    Read(u64),
    Write(u64, String),
    Panic,
}

#[derive(Debug, PartialEq)]
enum KVStoreResponse {
    Read(Option<String>),
    Write(()),
}

struct KVStoreApp {
    state: HashMap<u64, String>,
}

impl KVStoreApp {
    /// `Err` stands for a task that panicked: it gives no response.
    fn call(&mut self, req: KVStoreRequest) -> Result<KVStoreResponse, ()> {
        match req {
            KVStoreRequest::Read(id) => Ok(KVStoreResponse::Read(self.state.get(&id).cloned())),
            KVStoreRequest::Write(id, s) => {
                self.state.insert(id, s);
                Ok(KVStoreResponse::Write(()))
            }
            KVStoreRequest::Panic => Err(()),
        }
    }
}

struct Harness {
    app: KVStoreApp,
    rx: flume::Receiver<CoreRequest<KVStoreRequest, KVStoreResponse>>,
    registry: Registry,
}

impl Harness {
    fn new() -> (Channel<KVStoreRequest, KVStoreResponse>, Harness) {
        let app = KVStoreApp { state: HashMap::new() };
        let (chan, server) = ServerBuilder::new(app).build();
        let (app, rx) = server.into_parts();
        (chan, Harness { app, rx, registry: Registry::new() })
    }

    /// Handles every item that is on the queue, as the server loop would:
    /// each call is registered, runs to its end and is then reported as
    /// ended.
    fn drain(&mut self) {
        while let Ok(item) = self.rx.try_recv() {
            if let Some(call) = dispatch(&mut self.registry, item) {
                let call = call.release::<()>(Ok(()));
                self.registry.register(call.stream_id, call.task, AbortHandle::new_pair().0, true);
                let result = self.app.call(call.inner);
                if let Some(rep) = reply_of(result) {
                    call.tx.send(rep).ok();
                }
                self.registry.finish(call.stream_id, call.task);
            }
        }
    }

    fn call(
        &mut self,
        chan: &Channel<KVStoreRequest, KVStoreResponse>,
        req: KVStoreRequest,
    ) -> Result<KVStoreResponse, Error> {
        let (slot, mut reply) = oneshot::channel();
        let sent = chan.sender().send(chan.request(req, slot)).is_ok();
        self.drain();
        conclude(sent, reply.try_recv().ok().flatten())
    }
}

#[test]
fn kvstore_reads_what_was_written() {
    let (chan, mut server) = Harness::new();
    assert_eq!(server.call(&chan, KVStoreRequest::Read(1)), Ok(KVStoreResponse::Read(None)));
    assert_eq!(
        server.call(&chan, KVStoreRequest::Write(1, "one".to_owned())),
        Ok(KVStoreResponse::Write(()))
    );
    assert_eq!(
        server.call(&chan, KVStoreRequest::Read(1)),
        Ok(KVStoreResponse::Read(Some("one".to_owned())))
    );
    assert_eq!(server.call(&chan, KVStoreRequest::Read(2)), Ok(KVStoreResponse::Read(None)));

    let mut ids = IdSource::new();
    let clone = chan.clone_with(&mut ids);
    assert_eq!(
        server.call(&clone, KVStoreRequest::Write(3, "three".to_owned())),
        Ok(KVStoreResponse::Write(()))
    );
    assert_eq!(
        server.call(&chan, KVStoreRequest::Read(3)),
        Ok(KVStoreResponse::Read(Some("three".to_owned())))
    );
}

#[test]
fn ten_thousand_failing_calls_leave_the_server_serving() {
    let (chan, mut server) = Harness::new();
    let clone = chan.clone_with(&mut IdSource::new());
    for _ in 0..10000 {
        assert_eq!(server.call(&clone, KVStoreRequest::Panic), Err(Error::RecvError));
    }
    // Nothing is left of the failed calls.
    assert_eq!(server.registry.len(), 0);
    assert_eq!(
        server.call(&clone, KVStoreRequest::Write(1, "one".to_owned())),
        Ok(KVStoreResponse::Write(()))
    );
    assert_eq!(
        server.call(&chan, KVStoreRequest::Read(1)),
        Ok(KVStoreResponse::Read(Some("one".to_owned())))
    );
}

#[test]
fn a_dropped_handle_cancels_its_call_and_no_other() {
    let (chan, mut server) = Harness::new();
    let mut ids = IdSource::new();
    let first = chan.clone_with(&mut ids);
    let second = first.clone_with(&mut ids);
    assert_ne!(first.stream_id(), second.stream_id());

    let one = handle();
    let two = handle();
    let task = server.registry.draw_task();
    server.registry.register(first.stream_id(), task, one.clone(), true);
    let task = server.registry.draw_task();
    server.registry.register(second.stream_id(), task, two.clone(), true);

    assert!(first.send_cancel());
    server.drain();
    assert!(one.is_aborted());
    assert!(!two.is_aborted());
    assert!(server.registry.tracks(second.stream_id()));

    assert_eq!(server.call(&second, KVStoreRequest::Read(1)), Ok(KVStoreResponse::Read(None)));
    assert_eq!(server.call(&chan, KVStoreRequest::Read(1)), Ok(KVStoreResponse::Read(None)));
}

#[test]
fn a_call_to_a_server_that_is_gone_fails_to_send() {
    let (chan, server) = Harness::new();
    drop(server);
    let (slot, mut reply) = oneshot::channel::<KVStoreResponse>();
    let sent = chan.sender().send(chan.request(KVStoreRequest::Read(1), slot)).is_ok();
    assert!(!sent);
    assert_eq!(conclude(sent, reply.try_recv().ok().flatten()), Err(Error::SendError));
}
