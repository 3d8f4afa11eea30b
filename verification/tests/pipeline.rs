use service_pipeline::pipeline::{
    settle, Action, Event, Phase, PipelineDriver, RunReport, ServicePipeline, WaitSet,
};
use std::sync::{Arc, Mutex};

fn feed(items: &[i32]) -> Vec<Event<i32>> {
    let mut events = Vec::new();
    for item in items {
        events.push(Event::Item(*item));
    }
    events
}

fn run_of(pipeline: ServicePipeline, events: Vec<Event<i32>>) -> RunReport<i32> {
    let result: Result<RunReport<i32>, String> = pipeline.run(events);
    result.unwrap()
}

#[test]
fn run() {
    let items = vec![1, 2, 3, 4, 5, 6];
    let collection = Arc::new(Mutex::new(Vec::new()));
    let cloned = Arc::clone(&collection);
    let service = move |req| {
        cloned.lock().unwrap().push(req);
        Result::<_, ()>::Ok(())
    };
    let pipeline = ServicePipeline::new();
    let mut events = feed(&items);
    events.push(Event::SourceExhausted);
    events.push(Event::ShutdownReady);
    let result: Result<RunReport<i32>, ()> = pipeline.run(events);
    let report = result.unwrap();
    for item in report.dispatched {
        assert_eq!(settle(service(item)), None);
    }
    assert_eq!(collection.lock().unwrap().len(), items.len());
    assert!(collection.lock().unwrap().iter().all(|i| items.contains(i)));
}

#[test]
fn six_items_are_dispatched_in_order_and_the_run_stops() {
    let mut events = feed(&[1, 2, 3, 4, 5, 6]);
    events.push(Event::SourceExhausted);
    events.push(Event::ShutdownReady);
    let report = run_of(ServicePipeline::new(), events);
    assert_eq!(report.dispatched, vec![1, 2, 3, 4, 5, 6]);
    assert_eq!(report.events_read, 8);
    assert_eq!(report.phase, Phase::Stopped);
}

#[test]
fn every_item_is_dispatched_wherever_the_sentinel_resolves() {
    let items = [10, 20, 30];
    for sentinel_at in 0..=4 {
        let mut events = feed(&items);
        events.push(Event::SourceExhausted);
        events.insert(sentinel_at, Event::ShutdownReady);
        let report = run_of(ServicePipeline::new(), events);
        assert_eq!(report.dispatched, vec![10, 20, 30]);
        assert_eq!(report.events_read, 5);
        assert_eq!(report.phase, Phase::Stopped);
    }
}

#[test]
fn shutdown_before_any_item_dispatches_nothing() {
    let mut events = vec![Event::ShutdownReady];
    events.extend(feed(&[1, 2, 3]));
    events.push(Event::SourceExhausted);
    let report = run_of(ServicePipeline::new().with_shutdown_signal(), events);
    assert_eq!(report.dispatched, Vec::<i32>::new());
    assert_eq!(report.events_read, 1);
    assert_eq!(report.phase, Phase::Stopped);
}

#[test]
fn shutdown_after_two_of_five_items_leaves_three_unread() {
    let mut events = feed(&[1, 2]);
    events.push(Event::ShutdownReady);
    events.extend(feed(&[3, 4, 5]));
    events.push(Event::SourceExhausted);
    let report = run_of(ServicePipeline::new().with_shutdown_signal(), events);
    assert_eq!(report.dispatched, vec![1, 2]);
    assert_eq!(report.events_read, 3);
    assert_eq!(report.phase, Phase::Stopped);
}

#[test]
fn a_failing_item_leaves_its_neighbours_alone() {
    let handled = Arc::new(Mutex::new(Vec::new()));
    let sink = Arc::clone(&handled);
    let processor = move |item: i32| {
        if item == 2 {
            Err(format!("cannot process {}", item))
        } else {
            sink.lock().unwrap().push(item);
            Ok(())
        }
    };
    let mut events = feed(&[1, 2, 3]);
    events.push(Event::SourceExhausted);
    events.push(Event::ShutdownReady);
    let result: Result<RunReport<i32>, String> = ServicePipeline::new().run(events);
    assert!(result.is_ok());
    let report = result.unwrap();
    assert_eq!(report.dispatched, vec![1, 2, 3]);
    assert_eq!(report.phase, Phase::Stopped);
    let mut failures = Vec::new();
    for item in report.dispatched {
        if let Some(failure) = settle(processor(item)) {
            failures.push(failure);
        }
    }
    assert_eq!(failures, vec![String::from("cannot process 2")]);
    assert_eq!(*handled.lock().unwrap(), vec![1, 3]);
}

#[test]
fn nothing_is_dispatched_after_exhaustion() {
    let mut events = feed(&[1]);
    events.push(Event::SourceExhausted);
    events.extend(feed(&[2, 3]));
    events.push(Event::ShutdownReady);
    events.extend(feed(&[4]));
    let report = run_of(ServicePipeline::new(), events);
    assert_eq!(report.dispatched, vec![1]);
    assert_eq!(report.events_read, 5);
    assert_eq!(report.phase, Phase::Stopped);
}

#[test]
fn an_exhausted_source_is_not_waited_on_again() {
    let mut driver = ServicePipeline::new().with_shutdown_signal().start();
    assert_eq!(driver.step(Event::Item(1)), Action::Dispatch(1));
    assert_eq!(driver.step(Event::<i32>::SourceExhausted), Action::Continue);
    assert_eq!(driver.wait_set(), WaitSet { source: false, shutdown: true });
    assert_eq!(driver.step(Event::Item(2)), Action::Continue);
    assert_eq!(driver.wait_set(), WaitSet { source: false, shutdown: true });
    assert_eq!(driver.phase(), Phase::Running);
    assert_eq!(driver.step(Event::<i32>::ShutdownReady), Action::Stop);
    assert_eq!(driver.wait_set(), WaitSet { source: false, shutdown: false });
}

#[test]
fn no_items_and_no_notifier_stops_at_once() {
    let report = run_of(
        ServicePipeline::new(),
        vec![Event::SourceExhausted, Event::ShutdownReady],
    );
    assert_eq!(report.dispatched, Vec::<i32>::new());
    assert_eq!(report.events_read, 2);
    assert_eq!(report.phase, Phase::Stopped);

    let report = run_of(
        ServicePipeline::new(),
        vec![Event::ShutdownReady, Event::SourceExhausted],
    );
    assert_eq!(report.dispatched, Vec::<i32>::new());
    assert_eq!(report.events_read, 2);
    assert_eq!(report.phase, Phase::Stopped);
}

#[test]
fn without_a_notifier_the_run_goes_on_until_exhaustion() {
    let mut events = vec![Event::ShutdownReady];
    events.extend(feed(&[1, 2, 3]));
    events.push(Event::ShutdownReady);
    events.extend(feed(&[4]));
    let report = run_of(ServicePipeline::new(), events);
    assert_eq!(report.dispatched, vec![1, 2, 3, 4]);
    assert_eq!(report.events_read, 6);
    assert_eq!(report.phase, Phase::Running);
}

#[test]
fn an_empty_schedule_leaves_the_run_running() {
    let report = run_of(ServicePipeline::new().with_shutdown_signal(), Vec::new());
    assert_eq!(report.dispatched, Vec::<i32>::new());
    assert_eq!(report.events_read, 0);
    assert_eq!(report.phase, Phase::Running);
}

#[test]
fn a_new_pipeline_has_no_shutdown_signal() {
    assert!(!ServicePipeline::new().has_shutdown_signal());
    assert!(ServicePipeline::new().with_shutdown_signal().has_shutdown_signal());
}

#[test]
fn a_fresh_driver_waits_on_both_branches() {
    let driver = ServicePipeline::new().start();
    assert_eq!(driver.phase(), Phase::Running);
    assert!(!driver.is_halted());
    assert_eq!(driver.wait_set(), WaitSet { source: true, shutdown: true });
    let driver = PipelineDriver::new(true);
    assert_eq!(driver.wait_set(), WaitSet { source: true, shutdown: true });
}

#[test]
fn the_sentinel_resolves_once_and_is_then_inert() {
    let mut driver = PipelineDriver::new(false);
    assert_eq!(driver.step(Event::<i32>::ShutdownReady), Action::Continue);
    assert_eq!(driver.phase(), Phase::Running);
    assert_eq!(driver.wait_set(), WaitSet { source: true, shutdown: false });
    assert_eq!(driver.step(Event::<i32>::ShutdownReady), Action::Continue);
    assert_eq!(driver.wait_set(), WaitSet { source: true, shutdown: false });
    assert_eq!(driver.step(Event::Item(5)), Action::Dispatch(5));
    assert_eq!(driver.step(Event::<i32>::SourceExhausted), Action::Stop);
    assert_eq!(driver.phase(), Phase::Stopped);
}

#[test]
fn an_armed_signal_stops_through_stopping() {
    let mut driver = PipelineDriver::new(true);
    assert_eq!(driver.step(Event::Item(1)), Action::Dispatch(1));
    assert_eq!(driver.step(Event::<i32>::ShutdownReady), Action::Stop);
    assert_eq!(driver.phase(), Phase::Stopping);
    assert!(driver.is_halted());
    assert_eq!(driver.finish(), Phase::Stopped);
    assert_eq!(driver.phase(), Phase::Stopped);
}

#[test]
fn a_halted_driver_only_stops() {
    let mut driver = PipelineDriver::new(true);
    assert_eq!(driver.step(Event::<i32>::ShutdownReady), Action::Stop);
    assert_eq!(driver.step(Event::Item(1)), Action::Stop);
    assert_eq!(driver.phase(), Phase::Stopped);
    assert_eq!(driver.step(Event::<i32>::SourceExhausted), Action::Stop);
    assert_eq!(driver.step(Event::<i32>::ShutdownReady), Action::Stop);
    assert_eq!(driver.phase(), Phase::Stopped);
    assert_eq!(driver.wait_set(), WaitSet { source: false, shutdown: false });
}

#[test]
fn with_a_notifier_exhaustion_alone_does_not_stop() {
    let mut events = feed(&[1, 2]);
    events.push(Event::SourceExhausted);
    let report = run_of(ServicePipeline::new().with_shutdown_signal(), events);
    assert_eq!(report.dispatched, vec![1, 2]);
    assert_eq!(report.events_read, 3);
    assert_eq!(report.phase, Phase::Running);
}

#[test]
fn finish_leaves_a_running_driver_running() {
    let mut driver = PipelineDriver::new(false);
    assert_eq!(driver.finish(), Phase::Running);
    assert_eq!(driver.step(Event::Item(1)), Action::Dispatch(1));
}

#[test]
fn settle_hands_back_the_failure_only() {
    assert_eq!(settle::<String>(Ok(())), None);
    assert_eq!(settle(Err(String::from("broken"))), Some(String::from("broken")));
}
