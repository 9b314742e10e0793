use archy_core::config::WorkerConfig;
use archy_core::{
    fire_outcome, next_interval_action, next_recv_step, receivers_reached, reply_outcome, seats,
    timeout_outcome, Delivery, EventBus, IntervalAction, IntervalEvent, RecvStep, Res,
    RestartPolicy, ServiceChannel, ServiceError, ServiceResultExt, SystemOutput, SystemResult,
    Worker, WorkerAction, WorkerEvent,
};
use std::sync::Arc;

#[test]
fn service_errors_have_their_texts() {
    assert_eq!(ServiceError::ChannelClosed.message(), "service channel closed");
    assert_eq!(ServiceError::ServiceDropped.message(), "service dropped before responding");
    assert_eq!(ServiceError::Timeout.message(), "operation timed out");
}

#[test]
fn calls_fail_by_what_went_wrong() {
    assert_eq!(fire_outcome::<&str>(Ok(())), Ok(()));
    assert_eq!(fire_outcome(Err("gone")), Err(ServiceError::ChannelClosed));
    assert_eq!(reply_outcome::<i32, &str>(Ok(5)), Ok(5));
    assert_eq!(reply_outcome::<i32, &str>(Err("dropped")), Err(ServiceError::ServiceDropped));
    assert_eq!(timeout_outcome::<i32, ()>(Ok(Ok(5))), Ok(5));
    assert_eq!(
        timeout_outcome::<i32, ()>(Ok(Err(ServiceError::ChannelClosed))),
        Err(ServiceError::ChannelClosed)
    );
    assert_eq!(timeout_outcome::<i32, ()>(Err(())), Err(ServiceError::Timeout));
}

#[derive(Debug, PartialEq)]
enum AppError {
    Call(ServiceError),
    Business(u8),
}

impl From<ServiceError> for AppError {
    fn from(error: ServiceError) -> Self {
        AppError::Call(error)
    }
}

impl From<u8> for AppError {
    fn from(error: u8) -> Self {
        AppError::Business(error)
    }
}

#[test]
fn nested_results_flatten() {
    let value: Result<Result<i32, u8>, ServiceError> = Ok(Ok(1));
    assert_eq!(value.flatten_into::<AppError>(), Ok(1));
    let business: Result<Result<i32, u8>, ServiceError> = Ok(Err(7));
    assert_eq!(business.flatten_into::<AppError>(), Err(AppError::Business(7)));
    let call: Result<Result<i32, u8>, ServiceError> = Err(ServiceError::Timeout);
    assert_eq!(call.flatten_into::<AppError>(), Err(AppError::Call(ServiceError::Timeout)));
}

#[test]
fn system_outputs_become_results() {
    assert!(matches!(().into_result(), SystemResult::Completed));
    assert!(matches!(Ok::<(), i32>(()).into_result(), SystemResult::Completed));
    match Err::<(), i32>(-3).into_result() {
        SystemResult::Failed(text) => assert_eq!(text, "-3"),
        SystemResult::Completed => panic!("an error is no success"),
    }
}

#[test]
fn sequential_worker_handles_one_message_after_the_other() {
    let mut worker = Worker::new(None);
    assert_eq!(worker.permits(), 1);
    assert!(!worker.accepts_event(&WorkerEvent::Done));
    assert!(matches!(worker.step(WorkerEvent::Started), WorkerAction::Receive));
    assert!(matches!(worker.step(WorkerEvent::Received(1)), WorkerAction::Handle(1)));
    assert_eq!(worker.running, 1);
    assert!(!worker.accepts_event(&WorkerEvent::Received(2)));
    assert!(matches!(worker.step(WorkerEvent::Done), WorkerAction::Receive));
    assert_eq!(worker.running, 0);
    assert!(matches!(worker.step(WorkerEvent::Closed), WorkerAction::Return));
    assert!(!worker.accepts_event(&WorkerEvent::Started));
    assert!(matches!(worker.step(WorkerEvent::Ended), WorkerAction::Leave));
    assert!(!worker.accepts_event(&WorkerEvent::Ended));
}

#[test]
fn restarted_worker_goes_on_with_the_next_message() {
    let mut worker = Worker::new(None);
    worker.step(WorkerEvent::Started);
    assert!(matches!(worker.step(WorkerEvent::Received("bad")), WorkerAction::Handle("bad")));
    assert!(matches!(worker.step(WorkerEvent::Started), WorkerAction::Receive));
    assert_eq!(worker.running, 0);
    assert!(matches!(worker.step(WorkerEvent::Received("good")), WorkerAction::Handle("good")));
}

#[test]
fn concurrent_worker_waits_for_permits() {
    let mut worker = Worker::new(Some(2));
    assert_eq!(worker.permits(), 2);
    assert!(matches!(worker.step(WorkerEvent::Started), WorkerAction::Receive));
    for message in ["a", "b"] {
        assert!(matches!(worker.step(WorkerEvent::Received(message)), WorkerAction::AcquirePermit));
        match worker.step(WorkerEvent::Done) {
            WorkerAction::SpawnHandler(spawned) => assert_eq!(spawned, message),
            _ => panic!("a permit spawns a handler"),
        }
        assert!(matches!(worker.step(WorkerEvent::Done), WorkerAction::Receive));
    }
    assert_eq!(worker.running, 2);
    assert!(matches!(worker.step(WorkerEvent::Received("c")), WorkerAction::AcquirePermit));
    assert!(!worker.accepts_event(&WorkerEvent::Done));
    worker.handler_ended();
    assert!(worker.accepts_event(&WorkerEvent::Done));
    assert!(matches!(worker.step(WorkerEvent::Done), WorkerAction::SpawnHandler("c")));
    assert_eq!(worker.running, 2);
}

#[test]
fn concurrent_worker_leaves_after_its_handlers() {
    let mut worker = Worker::new(Some(3));
    worker.step(WorkerEvent::Started);
    worker.step(WorkerEvent::Received("slow"));
    worker.step(WorkerEvent::Done);
    worker.step(WorkerEvent::Done);
    assert!(matches!(worker.step(WorkerEvent::Closed), WorkerAction::Return));
    assert!(matches!(worker.step(WorkerEvent::Ended), WorkerAction::AwaitHandlers));
    assert!(!worker.accepts_event(&WorkerEvent::Done));
    worker.handler_ended();
    assert!(matches!(worker.step(WorkerEvent::Done), WorkerAction::Leave));
    assert_eq!(worker.running, 0);
}

#[test]
fn restart_keeps_the_handlers_of_a_concurrent_worker() {
    let mut worker = Worker::new(Some(1));
    worker.step(WorkerEvent::Started);
    worker.step(WorkerEvent::Received(1));
    worker.step(WorkerEvent::Done);
    assert!(matches!(worker.step(WorkerEvent::Started), WorkerAction::Receive));
    assert_eq!(worker.running, 1);
    worker.step(WorkerEvent::Received(2));
    assert!(!worker.accepts_event(&WorkerEvent::Done));
}

#[test]
fn two_workers_handle_each_message_once() {
    let channel: ServiceChannel<u8> = ServiceChannel::new(8);
    for message in 0..6 {
        channel.sender.try_send(message).unwrap();
    }
    channel.closer.close();
    let config = WorkerConfig {
        workers: 2,
        capacity: 8,
        concurrent: None,
        restart: RestartPolicy::Never,
    };
    let mut crew = seats(&Arc::new(()), &channel.receiver, config);
    let mut handled = Vec::new();
    for seat in &mut crew {
        seat.worker.step(WorkerEvent::Started);
    }
    for turn in 0..6 {
        let seat = &mut crew[turn % 2];
        let message = seat.receiver.try_recv().unwrap();
        match seat.worker.step(WorkerEvent::Received(message)) {
            WorkerAction::Handle(message) => handled.push(message),
            _ => panic!("a sequential worker handles at once"),
        }
        assert!(matches!(seat.worker.step(WorkerEvent::Done), WorkerAction::Receive));
    }
    assert_eq!(handled, vec![0, 1, 2, 3, 4, 5]);
    assert!(crew[0].receiver.try_recv().is_err());
}

#[test]
fn workers_share_one_instance_and_one_channel() {
    let service = Arc::new("orders".to_string());
    let channel: ServiceChannel<u8> = ServiceChannel::new(4);
    let config = WorkerConfig {
        workers: 3,
        capacity: 4,
        concurrent: Some(2),
        restart: RestartPolicy::Always,
    };
    let seats = seats(&service, &channel.receiver, config);
    assert_eq!(seats.len(), 3);
    channel.sender.try_send(1).unwrap();
    channel.sender.try_send(2).unwrap();
    for seat in &seats {
        assert!(Arc::ptr_eq(&seat.service, &service));
        assert_eq!(seat.restart, RestartPolicy::Always);
        assert_eq!(seat.worker.permits(), 2);
    }
    assert_eq!(seats[1].receiver.try_recv(), Ok(1));
    assert_eq!(seats[0].receiver.try_recv(), Ok(2));
    assert!(seats[2].receiver.try_recv().is_err());
}

#[test]
fn interval_loop_ends_on_shutdown_or_error() {
    assert!(matches!(next_interval_action(IntervalEvent::Entered), IntervalAction::Wait));
    assert!(matches!(next_interval_action(IntervalEvent::Ticked), IntervalAction::RunOnce));
    assert!(matches!(
        next_interval_action(IntervalEvent::Ran(SystemResult::Completed)),
        IntervalAction::Wait
    ));
    assert!(matches!(
        next_interval_action(IntervalEvent::ShutDown),
        IntervalAction::Leave(SystemResult::Completed)
    ));
    match next_interval_action(IntervalEvent::Ran(SystemResult::Failed("bad".to_string()))) {
        IntervalAction::Leave(SystemResult::Failed(text)) => assert_eq!(text, "bad"),
        _ => panic!("a failure leaves the loop"),
    }
}

#[test]
fn events_reach_every_subscriber() {
    let bus: EventBus<u64> = EventBus::new(4);
    let emit = bus.emitter();
    assert_eq!(emit.emit(1), 0);
    let mut first = bus.subscriber();
    let mut second = first.clone();
    assert_eq!(emit.clone().emit(42), 2);
    assert_eq!(first.receiver.try_recv(), Ok(42));
    assert_eq!(second.receiver.try_recv(), Ok(42));
    assert!(second.receiver.try_recv().is_err());
}

#[test]
fn copies_of_a_subscriber_start_from_now() {
    let bus: EventBus<u64> = EventBus::new(4);
    let mut early = bus.subscriber();
    bus.emitter().emit(1);
    let mut late = early.clone();
    bus.emitter().emit(2);
    assert_eq!(early.receiver.try_recv(), Ok(1));
    assert_eq!(late.receiver.try_recv(), Ok(2));
}

#[test]
fn lagging_subscribers_wait_again() {
    assert_eq!(next_recv_step(Delivery::Event(3)), RecvStep::Return(Some(3)));
    assert_eq!(next_recv_step::<u8>(Delivery::Lagged(9)), RecvStep::Again);
    assert_eq!(next_recv_step::<u8>(Delivery::Closed), RecvStep::Return(None));
    assert_eq!(receivers_reached::<u8>(Ok(3)), 3);
    assert_eq!(receivers_reached(Err("nobody")), 0);
}

#[test]
fn closing_a_channel_keeps_what_was_sent() {
    let channel: ServiceChannel<u8> = ServiceChannel::new(2);
    assert_eq!(channel.sender.capacity(), Some(2));
    channel.sender.try_send(1).unwrap();
    channel.closer.close();
    assert!(channel.sender.try_send(2).is_err());
    assert_eq!(channel.receiver.try_recv(), Ok(1));
    assert!(channel.receiver.try_recv().is_err());
}

#[test]
fn resources_are_shared() {
    let first = Res(Arc::new("config".to_string()));
    let second = first.clone();
    assert!(Arc::ptr_eq(&first.0, &second.0));
    assert_eq!(second.len(), 6);
}
