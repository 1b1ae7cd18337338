use std::time::Duration;
use tower_batch::control::BatchControl;
use tower_batch::error::{BatchError, ServiceError};
use tower_batch::future::{ResponseFuture, ResponseState, SlotRead};
use tower_batch::handle::Handle;
use tower_batch::message::Message;
use tower_batch::policy::{Event, Phase};
use tower_batch::service::{Batch, Parts, Readiness};
use tower_batch::worker::Next;

type Front = Batch<&'static str, u32, &'static str>;
type Made = Parts<&'static str, u32, &'static str>;

fn parts(max_items: usize) -> Made {
    Batch::new(max_items, Duration::from_millis(50))
}

#[test]
fn new_front_end_holds_no_slot() {
    let made = parts(3);
    assert!(!made.service.is_reserved());
    assert!(matches!(made.worker.phase(), Phase::Collecting { count: 0 }));
    assert_eq!(made.worker.max_items(), 3);
    assert_eq!(made.worker.max_latency(), Duration::from_millis(50));
}

#[test]
fn poll_ready_reserves_the_one_slot() {
    let mut made = parts(3);
    assert!(matches!(made.service.poll_ready(), Readiness::Ready));
    assert!(made.service.is_reserved());
    assert!(matches!(made.service.poll_ready(), Readiness::Ready));
    let mut other: Front = made.service.clone();
    assert!(!other.is_reserved());
    assert!(matches!(other.poll_ready(), Readiness::NotReady));
    assert!(!other.is_reserved());
}

#[test]
fn queue_pushes_back_until_the_worker_takes_a_message() {
    let mut made = parts(3);
    let mut other: Front = made.service.clone();
    assert!(matches!(made.service.poll_ready(), Readiness::Ready));
    let _first = made.service.call("a");
    assert!(!made.service.is_reserved());
    assert!(matches!(made.service.poll_ready(), Readiness::NotReady));
    assert!(matches!(other.poll_ready(), Readiness::NotReady));
    let message = made.queue.try_recv().expect("the message is queued");
    assert_eq!(message.request, "a");
    assert!(matches!(other.poll_ready(), Readiness::Ready));
    assert!(matches!(made.service.poll_ready(), Readiness::NotReady));
    let _second = other.call("b");
    assert_eq!(made.queue.try_recv().expect("the message is queued").request, "b");
    assert!(matches!(made.service.poll_ready(), Readiness::Ready));
}

#[test]
fn dropping_a_reserved_front_end_frees_its_slot() {
    let mut made = parts(3);
    let mut other: Front = made.service.clone();
    assert!(matches!(other.poll_ready(), Readiness::Ready));
    assert!(matches!(made.service.poll_ready(), Readiness::NotReady));
    drop(other);
    assert!(matches!(made.service.poll_ready(), Readiness::Ready));
}

#[test]
fn grant_takes_in_a_slot_reserved_elsewhere() {
    let mut made = parts(3);
    let permit = made.service.producer().try_reserve_owned().expect("the queue is empty");
    made.service.grant(permit);
    assert!(made.service.is_reserved());
    let _future = made.service.call("a");
    assert_eq!(made.queue.try_recv().expect("the message is queued").request, "a");
}

#[test]
fn answer_comes_through_the_slot() {
    let mut made = parts(3);
    assert!(matches!(made.service.poll_ready(), Readiness::Ready));
    let mut future = made.service.call("a");
    assert!(!future.is_done());
    assert_eq!(future.poll(), None);
    let message = made.queue.try_recv().expect("the message is queued");
    assert_eq!(future.poll(), None);
    assert!(message.tx.send(Ok(41)).is_ok());
    assert_eq!(future.poll(), Some(Ok(41)));
    assert!(future.is_done());
}

#[test]
fn error_of_the_service_comes_through_the_slot() {
    let mut made = parts(3);
    assert!(matches!(made.service.poll_ready(), Readiness::Ready));
    let mut future = made.service.call("a");
    let message = made.queue.try_recv().expect("the message is queued");
    let error = ServiceError::new("bad");
    assert!(message.tx.send(Err(error.clone())).is_ok());
    assert_eq!(future.poll(), Some(Err(BatchError::Service(error))));
}

#[test]
fn abandoned_slot_answers_with_dropped() {
    let mut made = parts(3);
    assert!(matches!(made.service.poll_ready(), Readiness::Ready));
    let mut future = made.service.call("a");
    let message = made.queue.try_recv().expect("the message is queued");
    drop(message);
    assert_eq!(future.poll(), Some(Err(BatchError::Dropped)));
    assert!(future.is_done());
}

#[test]
fn closed_queue_without_a_reason_reports_closed() {
    let Parts { mut service, queue, .. } = parts(3);
    drop(queue);
    match service.poll_ready() {
        Readiness::Failed(error) => assert_eq!(error, BatchError::Closed),
        _ => panic!("the queue is closed"),
    }
    assert!(!service.is_reserved());
}

/// Lets the service fail on a first request, so that the worker records
/// `cause` and closes the queue.
fn fail_with(made: &mut Made, cause: &'static str) {
    assert!(matches!(made.service.poll_ready(), Readiness::Ready));
    let _unlucky = made.service.call("doomed");
    let message = made.queue.try_recv().expect("the message is queued");
    let (event, _span) = message.into_event();
    assert!(matches!(made.worker.advance(event, &mut made.queue), Next::Call { .. }));
    let next = made.worker.advance(Event::ItemDone(Err(cause)), &mut made.queue);
    assert_eq!(next, Next::Receive { timed: false });
}

#[test]
fn closed_queue_reports_the_recorded_error() {
    let mut made = parts(3);
    fail_with(&mut made, "service down");
    let error = ServiceError::new("service down");
    match made.service.poll_ready() {
        Readiness::Failed(found) => assert_eq!(found, BatchError::Service(error.clone())),
        _ => panic!("the queue is closed"),
    }
    let mut other: Front = made.service.clone();
    match other.poll_ready() {
        Readiness::Failed(found) => assert_eq!(found, BatchError::Service(error)),
        _ => panic!("the queue is closed"),
    }
}

#[test]
fn call_on_a_closed_queue_has_failed_already() {
    let mut made = parts(3);
    let mut other: Front = made.service.clone();
    assert!(matches!(made.service.poll_ready(), Readiness::Ready));
    let mut doomed = made.service.call("doomed");
    let message = made.queue.try_recv().expect("the message is queued");
    assert!(matches!(other.poll_ready(), Readiness::Ready));
    let (event, _span) = message.into_event();
    assert!(matches!(made.worker.advance(event, &mut made.queue), Next::Call { .. }));
    let next = made.worker.advance(Event::ItemDone(Err("service down")), &mut made.queue);
    assert_eq!(next, Next::Receive { timed: false });
    let error = ServiceError::new("service down");
    assert_eq!(doomed.poll(), Some(Err(BatchError::Service(error.clone()))));
    let mut late = other.call("late");
    assert!(!other.is_reserved());
    assert_eq!(late.poll(), Some(Err(BatchError::Service(error))));
    assert!(late.is_done());
    assert!(made.queue.try_recv().is_err());
}

#[test]
fn held_slot_of_a_closed_queue_is_let_go() {
    let Parts { mut service, queue, .. } = parts(3);
    assert!(matches!(service.poll_ready(), Readiness::Ready));
    assert!(service.is_reserved());
    drop(queue);
    match service.poll_ready() {
        Readiness::Failed(error) => assert_eq!(error, BatchError::Closed),
        _ => panic!("the queue is closed"),
    }
    assert!(!service.is_reserved());
}

#[test]
fn held_slot_learns_of_the_recorded_error() {
    let mut made = parts(3);
    let mut other: Front = made.service.clone();
    assert!(matches!(made.service.poll_ready(), Readiness::Ready));
    let _doomed = made.service.call("doomed");
    let message = made.queue.try_recv().expect("the message is queued");
    assert!(matches!(other.poll_ready(), Readiness::Ready));
    let (event, _span) = message.into_event();
    assert!(matches!(made.worker.advance(event, &mut made.queue), Next::Call { .. }));
    let _ = made.worker.advance(Event::ItemDone(Err("service down")), &mut made.queue);
    match other.poll_ready() {
        Readiness::Failed(found) => {
            assert_eq!(found, BatchError::Service(ServiceError::new("service down")))
        }
        _ => panic!("the queue is closed"),
    }
    assert!(!other.is_reserved());
}

#[test]
fn try_call_sends_through_a_slot_taken_on_the_spot() {
    let mut made = parts(3);
    assert!(!made.service.is_reserved());
    let mut future = match made.service.try_call("a") {
        Ok(future) => future,
        Err(_) => panic!("the queue is empty"),
    };
    assert!(!made.service.is_reserved());
    let message = made.queue.try_recv().expect("the message is queued");
    assert_eq!(message.request, "a");
    assert!(message.tx.send(Ok(9)).is_ok());
    assert_eq!(future.poll(), Some(Ok(9)));
}

#[test]
fn try_call_uses_the_slot_that_is_held() {
    let mut made = parts(3);
    let mut other: Front = made.service.clone();
    assert!(matches!(made.service.poll_ready(), Readiness::Ready));
    assert!(matches!(other.try_call("b"), Err("b")));
    assert!(made.service.try_call("a").is_ok());
    assert!(!made.service.is_reserved());
    assert_eq!(made.queue.try_recv().expect("the message is queued").request, "a");
    assert!(made.queue.try_recv().is_err());
}

#[test]
fn try_call_hands_the_request_back_from_a_full_queue() {
    let mut made = parts(3);
    let mut other: Front = made.service.clone();
    assert!(made.service.try_call("a").is_ok());
    assert!(matches!(other.try_call("b"), Err("b")));
    assert!(matches!(made.service.try_call("c"), Err("c")));
    assert_eq!(made.queue.try_recv().expect("the message is queued").request, "a");
    assert!(other.try_call("b").is_ok());
    assert_eq!(made.queue.try_recv().expect("the message is queued").request, "b");
}

#[test]
fn try_call_on_a_closed_queue_has_failed_already() {
    let mut made = parts(3);
    fail_with(&mut made, "service down");
    let mut late = match made.service.try_call("late") {
        Ok(future) => future,
        Err(_) => panic!("the queue is closed, not full"),
    };
    assert_eq!(
        late.poll(),
        Some(Err(BatchError::Service(ServiceError::new("service down"))))
    );
    assert!(made.queue.try_recv().is_err());
    let Parts { service, queue, .. } = parts(3);
    drop(queue);
    let mut lost: Front = service.clone();
    match lost.try_call("lost") {
        Ok(future) => match future.into_state() {
            ResponseState::Failed(error) => assert_eq!(error, BatchError::Closed),
            _ => panic!("the queue is closed"),
        },
        Err(_) => panic!("the queue is closed, not full"),
    }
}

#[test]
fn clone_reads_what_the_worker_of_its_source_records() {
    let mut made = parts(3);
    let early: Front = made.service.clone();
    let mut of_a_clone: Front = early.clone();
    fail_with(&mut made, "recorded once");
    let mut late: Front = made.service.clone();
    let error = BatchError::Service(ServiceError::new("recorded once"));
    for front in [&mut of_a_clone, &mut late] {
        match front.poll_ready() {
            Readiness::Failed(found) => assert_eq!(found, error),
            _ => panic!("the queue is closed"),
        }
    }
    let mut unrelated = parts(3);
    assert!(matches!(unrelated.service.poll_ready(), Readiness::Ready));
}

#[test]
fn producer_is_of_the_front_ends_own_queue() {
    let mut made = parts(3);
    let producer = made.service.producer();
    assert!(producer.try_send(Message::new("direct").0).is_ok());
    assert_eq!(made.queue.try_recv().expect("the message is queued").request, "direct");
    assert!(producer.same_channel(&made.service.clone().producer()));
}

#[test]
fn call_after_the_worker_vanished_fails_with_closed() {
    let Parts { mut service, queue, .. } = parts(3);
    assert!(matches!(service.poll_ready(), Readiness::Ready));
    drop(queue);
    let future = service.call("a");
    match future.into_state() {
        ResponseState::Failed(error) => assert_eq!(error, BatchError::Closed),
        _ => panic!("the queue is closed"),
    }
}

#[test]
fn handle_keeps_the_first_error() {
    let handle: Handle<&'static str> = Handle::new();
    assert_eq!(handle.recorded(), None);
    assert_eq!(handle.get_error_on_closed(), BatchError::Closed);
    let shared = handle.clone();
    assert!(handle.record(ServiceError::new("first")));
    assert!(!shared.record(ServiceError::new("second")));
    assert_eq!(shared.recorded(), Some(ServiceError::new("first")));
    assert_eq!(handle.get_error_on_closed(), BatchError::Service(ServiceError::new("first")));
    assert_eq!(
        Handle::closed_with(Some(ServiceError::new("x"))),
        BatchError::Service(ServiceError::new("x"))
    );
    assert_eq!(Handle::<&'static str>::closed_with(None), BatchError::Closed);
}

#[test]
fn settle_maps_each_finding() {
    type F = ResponseFuture<u32, &'static str>;
    assert_eq!(F::settle(SlotRead::Value(Ok(3))), Some(Ok(3)));
    assert_eq!(
        F::settle(SlotRead::Value(Err(ServiceError::new("e")))),
        Some(Err(BatchError::Service(ServiceError::new("e"))))
    );
    assert_eq!(F::settle(SlotRead::Empty), None);
    assert_eq!(F::settle(SlotRead::Abandoned), Some(Err(BatchError::Dropped)));
}

#[test]
fn failed_future_answers_at_once() {
    let mut future: ResponseFuture<u32, &'static str> = ResponseFuture::failed(BatchError::Closed);
    assert!(!future.is_done());
    assert_eq!(future.poll(), Some(Err(BatchError::Closed)));
    assert!(future.is_done());
}

#[test]
fn message_carries_the_request_and_a_fresh_slot() {
    let (message, mut rx): (Message<&'static str, u32, &'static str>, _) = Message::new("hello");
    assert_eq!(message.request, "hello");
    assert!(rx.try_recv().is_err());
    assert!(message.tx.send(Ok(5)).is_ok());
    assert_eq!(rx.try_recv(), Ok(Ok(5)));
}

#[test]
fn shared_error_is_the_same_error() {
    let error = ServiceError::new(String::from("once"));
    let copy = error.clone();
    assert_eq!(error, copy);
    assert!(std::sync::Arc::ptr_eq(&error.inner, &copy.inner));
    let told = BatchError::Service(error);
    assert_eq!(told.clone(), told);
    assert_eq!(BatchError::<String>::Closed.clone(), BatchError::Closed);
    assert_eq!(BatchError::<String>::Dropped.clone(), BatchError::Dropped);
    assert_ne!(BatchError::<String>::Dropped, BatchError::Closed);
}

#[test]
fn front_end_shows_itself_in_debug_output() {
    let made = parts(3);
    assert!(format!("{:?}", made.service).starts_with("Batch"));
    assert!(format!("{:?}", made.worker).starts_with("Worker"));
}

/// A service that doubles its requests and fails on 13.
fn serve(control: &BatchControl<u32>, log: &mut Vec<String>) -> Result<u32, &'static str> {
    match control {
        BatchControl::Item(13) => {
            log.push(String::from("item 13"));
            Err("unlucky")
        }
        BatchControl::Item(request) => {
            log.push(format!("item {}", request));
            Ok(request * 2)
        }
        BatchControl::Flush => {
            log.push(String::from("flush"));
            Ok(0)
        }
    }
}

/// Drives the worker, which waits for a message, on what is queued, with a
/// service that answers at once, until it waits for a message that is not
/// there; with `gone`, a queue found empty counts as left by its producers.
fn work(made: &mut Parts<u32, u32, &'static str>, log: &mut Vec<String>, gone: bool) {
    let mut next = Next::Receive { timed: false };
    let mut armed = 0;
    loop {
        let event = match next {
            Next::Halt => return,
            Next::Receive { .. } => match made.queue.try_recv() {
                Ok(message) => message.into_event().0,
                Err(_) if gone => Event::Disconnected,
                Err(_) => return,
            },
            Next::Call { control, arm } => {
                if let Some(latency) = arm {
                    assert_eq!(latency, Duration::from_millis(50));
                    armed += 1;
                    assert_eq!(armed, 1);
                }
                let answer = serve(&control, log);
                match control {
                    BatchControl::Item(_) => Event::ItemDone(answer),
                    BatchControl::Flush => Event::FlushDone(answer.map(|_| ())),
                }
            }
        };
        assert!(made.worker.expects(&event));
        next = made.worker.advance(event, &mut made.queue);
    }
}

#[test]
fn requests_flow_through_queue_worker_and_slots() {
    let mut made: Parts<u32, u32, &'static str> = Batch::new(2, Duration::from_millis(50));
    let mut log = Vec::new();
    let mut answers = Vec::new();
    for request in [1u32, 2, 3] {
        assert!(matches!(made.service.poll_ready(), Readiness::Ready));
        let mut future = made.service.call(request);
        work(&mut made, &mut log, false);
        answers.push(future.poll());
    }
    assert_eq!(answers, vec![Some(Ok(2)), Some(Ok(4)), Some(Ok(6))]);
    assert_eq!(log, vec!["item 1", "item 2", "flush", "item 3"]);
    assert!(matches!(made.worker.phase(), Phase::Collecting { count: 1 }));
    work(&mut made, &mut log, true);
    assert_eq!(log, vec!["item 1", "item 2", "flush", "item 3", "flush"]);
    assert!(matches!(made.worker.phase(), Phase::Stopped(None)));
    let Parts { mut service, queue, .. } = made;
    drop(queue);
    assert!(matches!(service.poll_ready(), Readiness::Failed(BatchError::Closed)));
}

#[test]
fn each_answer_lands_in_the_slot_of_its_request() {
    let mut made: Parts<u32, u32, &'static str> = Batch::new(4, Duration::from_millis(50));
    let mut other = made.service.clone();
    let mut log = Vec::new();
    assert!(matches!(made.service.poll_ready(), Readiness::Ready));
    let mut first = made.service.call(21);
    let message = made.queue.try_recv().expect("the message is queued");
    assert!(matches!(other.poll_ready(), Readiness::Ready));
    let mut second = other.call(4);
    let next = made.worker.advance(message.into_event().0, &mut made.queue);
    assert_eq!(
        next,
        Next::Call { control: BatchControl::Item(21), arm: Some(Duration::from_millis(50)) }
    );
    assert_eq!(first.poll(), None);
    let next = made.worker.advance(Event::ItemDone(Ok(42)), &mut made.queue);
    assert_eq!(next, Next::Receive { timed: true });
    assert_eq!(first.poll(), Some(Ok(42)));
    assert_eq!(second.poll(), None);
    work(&mut made, &mut log, false);
    assert_eq!(second.poll(), Some(Ok(8)));
    assert_eq!(log, vec!["item 4"]);
}

#[test]
fn failure_reaches_callers_before_and_after() {
    let mut made: Parts<u32, u32, &'static str> = Batch::new(5, Duration::from_millis(50));
    let mut other = made.service.clone();
    let mut log = Vec::new();
    assert!(matches!(made.service.poll_ready(), Readiness::Ready));
    let mut unlucky = made.service.call(13);
    assert!(matches!(other.poll_ready(), Readiness::NotReady));
    work(&mut made, &mut log, false);
    let error = ServiceError::new("unlucky");
    assert_eq!(unlucky.poll(), Some(Err(BatchError::Service(error.clone()))));
    assert!(matches!(made.worker.phase(), Phase::Draining(found) if *found == error));
    match other.poll_ready() {
        Readiness::Failed(found) => assert_eq!(found, BatchError::Service(error.clone())),
        _ => panic!("the worker has failed"),
    }
    match made.service.poll_ready() {
        Readiness::Failed(found) => assert_eq!(found, BatchError::Service(error.clone())),
        _ => panic!("the worker has failed"),
    }
    work(&mut made, &mut log, true);
    assert!(matches!(made.worker.phase(), Phase::Stopped(Some(found)) if *found == error));
    assert_eq!(log, vec!["item 13"]);
}

#[test]
fn message_sent_into_a_closing_queue_is_failed_by_the_worker() {
    let mut made: Parts<u32, u32, &'static str> = Batch::new(5, Duration::from_millis(50));
    let mut other = made.service.clone();
    let mut log = Vec::new();
    assert!(matches!(made.service.poll_ready(), Readiness::Ready));
    let mut first = made.service.call(13);
    let message = made.queue.try_recv().expect("the message is queued");
    assert!(matches!(other.poll_ready(), Readiness::Ready));
    let mut second = other.call(4);
    let next = made.worker.advance(message.into_event().0, &mut made.queue);
    assert!(matches!(next, Next::Call { control: BatchControl::Item(13), .. }));
    let answer = serve(&BatchControl::Item(13), &mut log);
    let next = made.worker.advance(Event::ItemDone(answer), &mut made.queue);
    assert_eq!(next, Next::Receive { timed: false });
    work(&mut made, &mut log, true);
    let error = ServiceError::new("unlucky");
    assert_eq!(first.poll(), Some(Err(BatchError::Service(error.clone()))));
    assert_eq!(second.poll(), Some(Err(BatchError::Service(error.clone()))));
    assert!(matches!(made.worker.phase(), Phase::Stopped(Some(found)) if *found == error));
    assert_eq!(log, vec!["item 13"]);
}

#[test]
fn offer_hands_back_what_the_worker_does_not_wait_for() {
    let mut made: Parts<u32, u32, &'static str> = Batch::new(5, Duration::from_millis(50));
    let refused = made.worker.offer(Event::ItemDone(Ok(1)), &mut made.queue);
    assert!(matches!(refused, Err(Event::ItemDone(Ok(1)))));
    let refused = made.worker.offer(Event::DeadlineElapsed, &mut made.queue);
    assert!(matches!(refused, Err(Event::DeadlineElapsed)));
    let taken = made.worker.offer(Event::Disconnected, &mut made.queue);
    assert!(matches!(taken, Ok(Next::Halt)));
    assert!(matches!(made.worker.phase(), Phase::Stopped(None)));
    let refused = made.worker.offer(Event::Disconnected, &mut made.queue);
    assert!(matches!(refused, Err(Event::Disconnected)));
}
