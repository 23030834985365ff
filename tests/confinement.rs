use coqui_stt::{Client, ClientPhase, Error, Worker, WorkerAction, WorkerEvent, WorkerPhase};

type Event = WorkerEvent<&'static str, &'static str>;

fn run(worker: &mut Worker, e: Event) -> WorkerAction<&'static str, &'static str> {
    worker.step(e)
}

#[test]
fn worker_reports_ready_then_waits() {
    let mut w = Worker::new();
    assert!(matches!(run(&mut w, WorkerEvent::StreamOpened), WorkerAction::ReportReady));
    assert_eq!(w.current_phase(), WorkerPhase::Awaiting);
}

#[test]
fn worker_reports_failure_and_stops() {
    let mut w = Worker::new();
    let a = run(&mut w, WorkerEvent::StreamFailed(Error::CreateStreamFailed));
    assert!(matches!(a, WorkerAction::ReportFailure(Error::CreateStreamFailed)));
    assert_eq!(w.current_phase(), WorkerPhase::Stopped);
    assert!(matches!(run(&mut w, WorkerEvent::Borrowing("feed")), WorkerAction::Halt));
}

#[test]
fn worker_runs_borrowing_ops_in_order_then_consumes() {
    let mut w = Worker::new();
    run(&mut w, WorkerEvent::StreamOpened);
    assert!(matches!(run(&mut w, WorkerEvent::Borrowing("a")), WorkerAction::RunBorrowing("a")));
    assert_eq!(w.current_phase(), WorkerPhase::Polling);
    assert!(matches!(run(&mut w, WorkerEvent::NoConsuming), WorkerAction::AwaitBorrowing));
    assert!(matches!(run(&mut w, WorkerEvent::Borrowing("b")), WorkerAction::RunBorrowing("b")));
    assert!(matches!(run(&mut w, WorkerEvent::Consuming("finish")), WorkerAction::RunConsuming("finish")));
    assert_eq!(w.current_phase(), WorkerPhase::Stopped);
}

#[test]
fn worker_never_touches_stream_after_consuming() {
    let mut w = Worker::new();
    run(&mut w, WorkerEvent::StreamOpened);
    run(&mut w, WorkerEvent::Borrowing("noop"));
    run(&mut w, WorkerEvent::Consuming("finish"));
    assert!(matches!(run(&mut w, WorkerEvent::Borrowing("late")), WorkerAction::Halt));
    assert!(matches!(run(&mut w, WorkerEvent::Consuming("again")), WorkerAction::Halt));
    assert!(matches!(run(&mut w, WorkerEvent::BorrowingClosed), WorkerAction::Halt));
}

#[test]
fn closed_channel_still_runs_pending_consuming_op() {
    let mut w = Worker::new();
    run(&mut w, WorkerEvent::StreamOpened);
    assert!(matches!(run(&mut w, WorkerEvent::BorrowingClosed), WorkerAction::PollConsuming));
    assert_eq!(w.current_phase(), WorkerPhase::Closing);
    assert!(matches!(run(&mut w, WorkerEvent::Consuming("finish")), WorkerAction::RunConsuming("finish")));
}

#[test]
fn closed_channel_without_consuming_op_cancels() {
    let mut w = Worker::new();
    run(&mut w, WorkerEvent::StreamOpened);
    run(&mut w, WorkerEvent::BorrowingClosed);
    assert!(matches!(run(&mut w, WorkerEvent::NoConsuming), WorkerAction::Cancel));
    assert_eq!(w.current_phase(), WorkerPhase::Stopped);
}

#[test]
fn client_open_follows_the_report() {
    assert_eq!(Client::open(Some(Ok(()))).unwrap().current_phase(), ClientPhase::Ready);
    assert!(matches!(Client::open(Some(Err(Error::CreateStreamFailed))), Err(Error::CreateStreamFailed)));
    assert!(matches!(Client::open(None), Err(Error::WorkerUnavailable)));
}

#[test]
fn client_borrowing_passes_reply_through() {
    let mut c = Client::open(Some(Ok(()))).unwrap();
    assert!(c.begin_borrowing().is_ok());
    assert_eq!(c.end_borrowing(Some(17)).unwrap(), 17);
    assert_eq!(c.current_phase(), ClientPhase::Ready);
}

#[test]
fn client_lost_reply_is_worker_unavailable() {
    let mut c = Client::open(Some(Ok(()))).unwrap();
    assert!(matches!(c.end_borrowing::<u8>(None), Err(Error::WorkerUnavailable)));
    assert_eq!(c.current_phase(), ClientPhase::Closed);
    assert!(matches!(c.begin_borrowing(), Err(Error::WorkerUnavailable)));
}

#[test]
fn borrowing_after_consuming_fails_fast() {
    let mut c = Client::open(Some(Ok(()))).unwrap();
    assert!(c.begin_consuming().is_ok());
    assert!(matches!(c.begin_borrowing(), Err(Error::WorkerUnavailable)));
    let text: Result<String, Error> = c.end_consuming(Some(Ok("done".to_string())));
    assert_eq!(text.unwrap(), "done");
    assert_eq!(c.current_phase(), ClientPhase::Closed);
    assert!(matches!(c.begin_borrowing(), Err(Error::WorkerUnavailable)));
    assert!(matches!(c.begin_consuming(), Err(Error::WorkerUnavailable)));
}

#[test]
fn consuming_without_reply_is_worker_unavailable() {
    let mut c = Client::open(Some(Ok(()))).unwrap();
    c.begin_consuming().unwrap();
    assert!(matches!(c.end_consuming::<String>(None), Err(Error::WorkerUnavailable)));
}

#[test]
fn consuming_reply_error_is_passed_through() {
    let mut c = Client::open(Some(Ok(()))).unwrap();
    c.begin_consuming().unwrap();
    assert!(matches!(c.end_consuming::<String>(Some(Err(Error::Unknown))), Err(Error::Unknown)));
}
