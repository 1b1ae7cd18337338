use std::sync::{Arc, Mutex};
use std::time::Duration;
use tokio::sync::mpsc;
use tokio::time::{sleep, timeout_at, Instant};
use tower_batch::control::BatchControl;
use tower_batch::error::{BatchError, ServiceError};
use tower_batch::future::ResponseFuture;
use tower_batch::message::Message;
use tower_batch::policy::Event;
use tower_batch::service::{Batch, Parts, Readiness};
use tower_batch::worker::{Next, Worker};

type Log = Arc<Mutex<Vec<BatchControl<&'static str>>>>;

/// The task of a worker whose service answers at once: an item with the
/// length of its request, "poison" with an error.
async fn task(
    mut worker: Worker<usize, &'static str>,
    mut queue: mpsc::Receiver<Message<&'static str, usize, &'static str>>,
    log: Log,
) {
    let mut next: Next<&'static str> = Next::Receive { timed: false };
    let mut deadline = Instant::now();
    loop {
        let event = match next {
            Next::Halt => return,
            Next::Receive { timed: false } => match queue.recv().await {
                Some(message) => message.into_event().0,
                None => Event::Disconnected,
            },
            Next::Receive { timed: true } => match timeout_at(deadline, queue.recv()).await {
                Ok(Some(message)) => message.into_event().0,
                Ok(None) => Event::Disconnected,
                Err(_) => Event::DeadlineElapsed,
            },
            Next::Call { control, arm } => {
                if let Some(latency) = arm {
                    deadline = Instant::now() + latency;
                }
                let event = match &control {
                    BatchControl::Item(request) if *request == "poison" => {
                        Event::ItemDone(Err("poisoned"))
                    }
                    BatchControl::Item(request) => Event::ItemDone(Ok(request.len())),
                    BatchControl::Flush => Event::FlushDone(Ok(())),
                };
                log.lock().unwrap().push(control);
                event
            }
        };
        assert!(worker.expects(&event));
        next = worker.advance(event, &mut queue);
    }
}

/// Sends `request` once the queue has room for it.
async fn send(
    service: &mut Batch<&'static str, usize, &'static str>,
    request: &'static str,
) -> Result<ResponseFuture<usize, &'static str>, BatchError<&'static str>> {
    loop {
        match service.poll_ready() {
            Readiness::Ready => return Ok(service.call(request)),
            Readiness::NotReady => tokio::task::yield_now().await,
            Readiness::Failed(error) => return Err(error),
        }
    }
}

/// Waits for the answer of `future`.
async fn answer(
    mut future: ResponseFuture<usize, &'static str>,
) -> Result<usize, BatchError<&'static str>> {
    loop {
        match future.poll() {
            Some(answer) => return answer,
            None => tokio::task::yield_now().await,
        }
    }
}

fn runtime() -> tokio::runtime::Runtime {
    tokio::runtime::Builder::new_current_thread().enable_time().build().unwrap()
}

#[test]
fn two_requests_are_flushed_by_latency_before_a_third_comes() {
    let log: Log = Arc::new(Mutex::new(Vec::new()));
    let seen = log.clone();
    runtime().block_on(async move {
        let Parts { mut service, worker, queue } = Batch::new(3, Duration::from_millis(50));
        let running = tokio::spawn(task(worker, queue, log));
        let first = send(&mut service, "A").await.unwrap();
        let second = send(&mut service, "B").await.unwrap();
        assert_eq!(answer(first).await, Ok(1));
        assert_eq!(answer(second).await, Ok(1));
        assert_eq!(*seen.lock().unwrap(), vec![BatchControl::Item("A"), BatchControl::Item("B")]);
        sleep(Duration::from_millis(60)).await;
        tokio::task::yield_now().await;
        assert_eq!(
            *seen.lock().unwrap(),
            vec![BatchControl::Item("A"), BatchControl::Item("B"), BatchControl::Flush]
        );
        drop(service);
        running.await.unwrap();
        assert_eq!(seen.lock().unwrap().len(), 3);
    });
}

#[test]
fn three_requests_are_flushed_by_count_without_waiting() {
    let log: Log = Arc::new(Mutex::new(Vec::new()));
    let seen = log.clone();
    runtime().block_on(async move {
        let Parts { mut service, worker, queue } = Batch::new(3, Duration::from_secs(3600));
        let running = tokio::spawn(task(worker, queue, log));
        for request in ["a", "bb", "ccc", "dddd"] {
            let future = send(&mut service, request).await.unwrap();
            assert_eq!(answer(future).await, Ok(request.len()));
        }
        assert_eq!(
            *seen.lock().unwrap(),
            vec![
                BatchControl::Item("a"),
                BatchControl::Item("bb"),
                BatchControl::Item("ccc"),
                BatchControl::Flush,
                BatchControl::Item("dddd"),
            ]
        );
        drop(service);
        running.await.unwrap();
        assert_eq!(seen.lock().unwrap().last(), Some(&BatchControl::Flush));
        assert_eq!(seen.lock().unwrap().len(), 6);
    });
}

#[test]
fn clones_share_one_worker_and_one_queue() {
    let log: Log = Arc::new(Mutex::new(Vec::new()));
    let seen = log.clone();
    runtime().block_on(async move {
        let Parts { mut service, worker, queue } = Batch::new(10, Duration::from_secs(3600));
        let mut other = service.clone();
        let running = tokio::spawn(task(worker, queue, log));
        let first = send(&mut service, "one").await.unwrap();
        let second = send(&mut other, "three").await.unwrap();
        assert_eq!(answer(second).await, Ok(5));
        assert_eq!(answer(first).await, Ok(3));
        drop(service);
        assert!(!running.is_finished());
        drop(other);
        running.await.unwrap();
        assert_eq!(
            *seen.lock().unwrap(),
            vec![BatchControl::Item("one"), BatchControl::Item("three"), BatchControl::Flush]
        );
    });
}

#[test]
fn failure_of_the_service_ends_the_session_for_everyone() {
    let log: Log = Arc::new(Mutex::new(Vec::new()));
    let seen = log.clone();
    runtime().block_on(async move {
        let Parts { mut service, worker, queue } = Batch::new(10, Duration::from_secs(3600));
        let mut other = service.clone();
        let running = tokio::spawn(task(worker, queue, log));
        let fine = send(&mut service, "fine").await.unwrap();
        assert_eq!(answer(fine).await, Ok(4));
        let poison = send(&mut service, "poison").await.unwrap();
        let error = BatchError::Service(ServiceError::new("poisoned"));
        assert_eq!(answer(poison).await, Err(error.clone()));
        match send(&mut other, "late").await {
            Err(found) => assert_eq!(found, error),
            Ok(_) => panic!("the session is over"),
        }
        match send(&mut service, "later").await {
            Err(found) => assert_eq!(found, error),
            Ok(_) => panic!("the session is over"),
        }
        running.await.unwrap();
        assert_eq!(
            *seen.lock().unwrap(),
            vec![BatchControl::Item("fine"), BatchControl::Item("poison")]
        );
    });
}
