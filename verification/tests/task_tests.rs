use stream_task::backend::MemoryBackend;
use stream_task::data::{Destination, Element, TaskMsg};
use stream_task::error::TaskError;
use stream_task::task::{ControlEvent, HandleOutcome, Lifecycle, Task, REPORT_PERIOD_MS};
use stream_task::timer::TimerService;
use stream_task::udf::{EchoModule, RefusingModule};

fn element(task_id: &str, data: Vec<u8>) -> Element {
    Element {
        id: 1,
        timestamp: 0,
        task_id: String::from(task_id),
        data,
    }
}

fn echo_task(elapsed_ns: u64, destination: Option<Destination>) -> Task<EchoModule> {
    Task::new(String::from("t"), EchoModule { elapsed_ns }, destination)
}

#[test]
fn first_sample_replaces_zero_average() {
    let mut task = echo_task(42, None);
    task.update_avg(42);
    assert_eq!(task.udf_avg, 42);
    assert_eq!(task.udf_executions, 1);
}

#[test]
fn constant_input_keeps_average_fixed() {
    let mut task = echo_task(100, None);
    for _ in 0..3 {
        task.update_avg(100);
        assert_eq!(task.udf_avg, 100);
    }
    assert_eq!(task.udf_executions, 3);
}

#[test]
fn second_sample_has_full_weight() {
    let mut task = echo_task(0, None);
    task.update_avg(0);
    assert_eq!(task.udf_avg, 0);
    task.update_avg(200);
    assert_eq!(task.udf_avg, 200);
}

#[test]
fn average_truncates_towards_zero() {
    let mut task = echo_task(0, None);
    task.update_avg(0);
    task.update_avg(0);
    // third sample: 0 + 2 * 10 / 3 = 6 remainder 2, truncated
    task.update_avg(10);
    assert_eq!(task.udf_avg, 6);
    // fourth: 6 + 2 * (30 - 6) / 4 = 6 + 12
    task.update_avg(30);
    assert_eq!(task.udf_avg, 18);
}

#[test]
fn average_moves_down_truncating() {
    let mut task = echo_task(0, None);
    task.update_avg(100);
    task.update_avg(100);
    // third sample below the average: 100 - 2 * 99 / 3 = 100 - 66
    task.update_avg(1);
    assert_eq!(task.udf_avg, 34);
}

#[test]
fn mismatched_task_id_is_rejected_with_both_ids() {
    let mut task = echo_task(10, None);
    let e = element("other", vec![1, 2, 3]);
    let r = task.run_udf(&e, 5);
    match r {
        Err(TaskError::BadTask {
            element_task_id,
            task_id,
        }) => {
            assert_eq!(element_task_id, "other");
            assert_eq!(task_id, "t");
        }
        other => panic!("expected a bad-task rejection, got {:?}", other),
    }
    assert_eq!(task.udf_executions, 0);
    assert_eq!(task.udf_avg, 0);
}

#[test]
fn processed_element_is_routed_to_destination() {
    let destination = Destination {
        path: String::from("downstream-path"),
        task_id: String::from("down"),
    };
    let mut task = echo_task(250, Some(destination));
    let e = Element {
        id: 9,
        timestamp: 3,
        task_id: String::from("t"),
        data: vec![1, 2, 3],
    };
    let r = task.run_udf(&e, 77);
    let outbound = r.expect("matching element must be processed").expect("destination set");
    assert_eq!(outbound.path, "downstream-path");
    assert_eq!(outbound.element.id, 9);
    assert_eq!(outbound.element.timestamp, 77);
    assert_eq!(outbound.element.task_id, "down");
    assert_eq!(outbound.element.data, vec![1, 2, 3]);
    assert_eq!(task.udf_executions, 1);
    assert_eq!(task.udf_avg, 250);
}

#[test]
fn no_destination_means_no_send_but_average_updates() {
    let mut task = echo_task(80, None);
    let e = element("t", vec![4, 5]);
    let r = task.run_udf(&e, 11);
    assert!(matches!(r, Ok(None)));
    assert_eq!(task.udf_executions, 1);
    assert_eq!(task.udf_avg, 80);
}

#[test]
fn context_failure_drops_element_without_counting() {
    let mut task = Task::new(
        String::from("t"),
        RefusingModule {
            at_context: true,
            message: String::from("no context"),
        },
        None,
    );
    let e = element("t", vec![1]);
    match task.run_udf(&e, 0) {
        Err(TaskError::Context { message }) => assert_eq!(message, "no context"),
        other => panic!("expected a context error, got {:?}", other),
    }
    assert_eq!(task.udf_executions, 0);
    assert_eq!(task.udf_avg, 0);
}

#[test]
fn execution_failure_drops_element_without_counting() {
    let mut task = Task::new(
        String::from("t"),
        RefusingModule {
            at_context: false,
            message: String::from("udf blew up"),
        },
        None,
    );
    let e = element("t", vec![1]);
    match task.run_udf(&e, 0) {
        Err(TaskError::UdfExecution { message }) => assert_eq!(message, "udf blew up"),
        other => panic!("expected an execution error, got {:?}", other),
    }
    assert_eq!(task.udf_executions, 0);
}

#[test]
fn watermark_is_a_noop() {
    let mut task = echo_task(10, None);
    let mut backend = MemoryBackend {
        log: Vec::new(),
        accept: true,
    };
    let out = task.handle_message(TaskMsg::Watermark(123), 0, &mut backend);
    assert!(matches!(out, HandleOutcome::WatermarkNoted));
    assert_eq!(task.udf_executions, 0);
    assert!(backend.log.is_empty());
}

#[test]
fn checkpoint_calls_backend_once_and_leaves_tracker_alone() {
    let mut task = echo_task(10, None);
    let e = element("t", vec![1]);
    task.run_udf(&e, 0).unwrap();
    let mut backend = MemoryBackend {
        log: Vec::new(),
        accept: true,
    };
    let out = task.handle_message(TaskMsg::Checkpoint(String::from("epoch-1")), 0, &mut backend);
    assert!(matches!(out, HandleOutcome::Checkpointed { result: Ok(()) }));
    assert_eq!(backend.log, vec![String::from("epoch-1")]);
    assert_eq!(task.udf_executions, 1);
    assert_eq!(task.udf_avg, 10);
}

#[test]
fn checkpoint_failure_keeps_the_task_live() {
    let mut task = echo_task(10, None);
    let mut backend = MemoryBackend {
        log: Vec::new(),
        accept: false,
    };
    let out = task.handle_message(TaskMsg::Checkpoint(String::from("epoch-2")), 0, &mut backend);
    assert!(matches!(out, HandleOutcome::Checkpointed { result: Err(_) }));
    assert_eq!(backend.log.len(), 1);
    // the failure was logged, not fatal: the next element still processes
    let out = task.handle_message(TaskMsg::Element(element("t", vec![9])), 4, &mut backend);
    assert!(matches!(out, HandleOutcome::Processed { outbound: None }));
    assert_eq!(task.udf_executions, 1);
}

#[test]
fn dropped_element_reports_its_error() {
    let mut task = echo_task(10, None);
    let mut backend = MemoryBackend {
        log: Vec::new(),
        accept: true,
    };
    let out = task.handle_message(TaskMsg::Element(element("elsewhere", vec![])), 0, &mut backend);
    assert!(matches!(
        out,
        HandleOutcome::Dropped {
            error: TaskError::BadTask { .. }
        }
    ));
    assert!(backend.log.is_empty());
}

#[test]
fn start_schedules_exactly_one_periodic_timer() {
    let mut task = echo_task(10, None);
    let mut timers = TimerService::new();
    task.handle_control(ControlEvent::Start, &mut timers);
    assert_eq!(task.phase, Lifecycle::Started);
    assert_eq!(timers.active_count(), 1);
    let handle = task.report_timer.expect("started task holds its timer handle");
    assert!(timers.is_active(handle));
    assert_eq!(timers.active[0].period_ms, REPORT_PERIOD_MS);
}

#[test]
fn second_start_does_not_schedule_another_timer() {
    let mut task = echo_task(10, None);
    let mut timers = TimerService::new();
    task.handle_control(ControlEvent::Start, &mut timers);
    task.handle_control(ControlEvent::Start, &mut timers);
    assert_eq!(timers.active_count(), 1);
}

#[test]
fn stop_cancels_the_timer_and_stop_again_is_a_noop() {
    let mut task = echo_task(10, None);
    let mut timers = TimerService::new();
    task.handle_control(ControlEvent::Start, &mut timers);
    let handle = task.report_timer.unwrap();
    task.handle_control(ControlEvent::Stop, &mut timers);
    assert_eq!(task.phase, Lifecycle::Stopped);
    assert!(task.report_timer.is_none());
    assert!(!timers.is_active(handle));
    assert_eq!(timers.active_count(), 0);
    task.handle_control(ControlEvent::Stop, &mut timers);
    assert_eq!(task.phase, Lifecycle::Stopped);
    assert_eq!(timers.active_count(), 0);
}

#[test]
fn kill_cancels_the_timer_and_terminal_states_stay() {
    let mut task = echo_task(10, None);
    let mut timers = TimerService::new();
    task.handle_control(ControlEvent::Start, &mut timers);
    task.handle_control(ControlEvent::Kill, &mut timers);
    assert_eq!(task.phase, Lifecycle::Killed);
    assert_eq!(timers.active_count(), 0);
    // stop after kill neither errors nor leaves the terminal state
    task.handle_control(ControlEvent::Stop, &mut timers);
    assert_eq!(task.phase, Lifecycle::Killed);
    // a terminal task ignores a new start: the timer stays cancelled
    task.handle_control(ControlEvent::Start, &mut timers);
    assert_eq!(task.phase, Lifecycle::Killed);
    assert_eq!(timers.active_count(), 0);
}

#[test]
fn stop_then_kill_never_double_cancels() {
    let mut task = echo_task(10, None);
    let mut timers = TimerService::new();
    task.handle_control(ControlEvent::Start, &mut timers);
    task.handle_control(ControlEvent::Stop, &mut timers);
    task.handle_control(ControlEvent::Kill, &mut timers);
    assert_eq!(task.phase, Lifecycle::Stopped);
    assert_eq!(timers.active_count(), 0);
}

#[test]
fn metric_reports_the_running_average() {
    let mut task = echo_task(64, None);
    let e = element("t", vec![1]);
    task.run_udf(&e, 0).unwrap();
    let metric = task.report_metric();
    assert_eq!(metric.task_id, "t");
    assert_eq!(metric.task_avg, 64);
}

#[test]
fn timer_service_hands_out_fresh_handles() {
    let mut timers = TimerService::new();
    let a = timers.schedule_periodic(100);
    let b = timers.schedule_periodic(200);
    assert_ne!(a, b);
    assert_eq!(timers.active_count(), 2);
    timers.cancel(a);
    assert!(!timers.is_active(a));
    assert!(timers.is_active(b));
    timers.cancel(a);
    assert_eq!(timers.active_count(), 1);
}
