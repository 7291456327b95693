use beaug::async_job::{AsyncJob, ChannelPoll};
use std::sync::mpsc;

#[test]
fn job_outcomes_decide_the_result() {
    let (_tx, rx) = mpsc::channel::<Result<u32, anyhow::Error>>();
    let mut job = AsyncJob::new(rx);
    assert!(job.take_outcome(ChannelPoll::Empty).is_none());
    assert!(job.is_running());
    match job.take_outcome(ChannelPoll::Ready(Ok(7))) {
        Some(Ok(v)) => assert_eq!(v, 7),
        _ => panic!("the message is the result"),
    }
    assert!(!job.is_running());
    assert!(job.poll().is_none());

    let (_tx, rx) = mpsc::channel::<Result<u32, anyhow::Error>>();
    let mut job = AsyncJob::new(rx);
    match job.take_outcome(ChannelPoll::Disconnected) {
        Some(Err(e)) => assert_eq!(e.to_string(), "Worker task disconnected"),
        _ => panic!("a vanished worker is an error"),
    }
    assert!(!job.is_running());
}

#[test]
fn polling_a_channel_waits_for_the_worker() {
    let (tx, rx) = mpsc::channel::<Result<u32, anyhow::Error>>();
    let mut job = AsyncJob::new(rx);
    assert!(job.poll().is_none());
    assert!(job.is_running());
    tx.send(Ok(3)).unwrap();
    assert_eq!(job.poll().unwrap().unwrap(), 3);
    assert!(!job.is_running());

    let (tx, rx) = mpsc::channel::<Result<u32, anyhow::Error>>();
    let mut job = AsyncJob::new(rx);
    drop(tx);
    assert!(matches!(job.poll(), Some(Err(_))));
    assert!(!job.is_running());
}
