use broadcast::callback::callback_step;
use broadcast::callback::decide;
use broadcast::CallbackOutcome;
use broadcast::Poll;
use broadcast::Command;
use broadcast::Event;
use broadcast::EventProcessor;
use broadcast::ListenOutcome;
use broadcast::Publisher;

fn always_start(_event: Event) -> Command {
    Command::Start
}

fn always_stop(_event: Event) -> Command {
    Command::Stop
}

fn stop_on_finished(event: Event) -> Command {
    match event {
        Event::ProcessingFinished(_) => Command::Stop,
        _ => Command::Start,
    }
}

fn drain_listener(ep: &mut EventProcessor) {
    loop {
        match ep.listen_step() {
            ListenOutcome::Received(_) => {}
            ListenOutcome::Finished(_) => break,
            ListenOutcome::Idle => panic!("the terminal message should be queued"),
        }
    }
}

#[test]
fn subscriber_receives_in_publish_order() {
    let mut publisher = Publisher::new();
    let receiver = publisher.subscribe();
    publisher.publish(Event::Pass("m1".to_string()));
    publisher.publish(Event::Fail("m2".to_string()));
    publisher.publish(Event::Continue("m3".to_string()));
    assert_eq!(receiver.try_recv().unwrap(), Event::Pass("m1".to_string()));
    assert_eq!(receiver.try_recv().unwrap(), Event::Fail("m2".to_string()));
    assert_eq!(receiver.try_recv().unwrap(), Event::Continue("m3".to_string()));
    assert!(receiver.try_recv().is_err());
}

#[test]
fn late_subscriber_sees_no_backlog() {
    let mut publisher = Publisher::new();
    let early = publisher.subscribe();
    publisher.publish(Event::Pass("early".to_string()));
    let late = publisher.subscribe();
    publisher.publish(Event::Pass("late".to_string()));
    assert_eq!(late.try_recv().unwrap(), Event::Pass("late".to_string()));
    assert_eq!(late.try_recv(), Err(crossbeam_channel::TryRecvError::Empty));
    assert_eq!(early.try_recv().unwrap(), Event::Pass("early".to_string()));
    assert_eq!(early.try_recv().unwrap(), Event::Pass("late".to_string()));
}

#[test]
fn publishing_n_messages_to_k_subscribers_makes_kn_deliveries() {
    let mut publisher = Publisher::new();
    let first = publisher.subscribe();
    let second = publisher.subscribe();
    let mut total = 0;
    for text in ["m1", "m2", "m3"] {
        total += publisher.publish(Event::Continue(text.to_string()));
    }
    assert_eq!(total, 6);
    assert_eq!(first.try_iter().count(), 3);
    assert_eq!(second.try_iter().count(), 3);
}

#[test]
fn listener_stops_at_terminal_message() {
    let mut publisher = Publisher::new();
    let receiver = publisher.subscribe();
    let handle = publisher.clone();
    publisher.publish(Event::Pass("a".to_string()));
    publisher.publish(Event::ProcessingFinished("done".to_string()));
    publisher.publish(Event::Pass("after".to_string()));
    let mut ep = EventProcessor {
        id: "ep1".to_string(),
        publisher: handle,
        receiver,
        processed: Vec::new(),
    };
    drain_listener(&mut ep);
    assert_eq!(
        ep.processed,
        vec![
            Event::Pass("a".to_string()),
            Event::ProcessingFinished("done".to_string()),
        ]
    );
    // the message enqueued after the terminal one is still in the queue,
    // untouched by the listener
    assert_eq!(ep.receiver.try_recv().unwrap(), Event::Pass("after".to_string()));
}

#[test]
fn callback_stops_right_after_the_stop_message() {
    let mut publisher = Publisher::new();
    let receiver = publisher.subscribe();
    let spare = receiver.clone();
    publisher.publish(Event::Pass("a".to_string()));
    publisher.publish(Event::ProcessingFinished("b".to_string()));
    publisher.publish(Event::Pass("c".to_string()));
    let mut handled = Vec::new();
    let stopped = loop {
        match callback_step(&receiver, stop_on_finished) {
            CallbackOutcome::Handled(event) => handled.push(event),
            CallbackOutcome::Stopped(event) => break event,
            CallbackOutcome::Idle => panic!("messages should be queued"),
            CallbackOutcome::Disconnected => panic!("the producer-end is still alive"),
        }
    };
    assert_eq!(handled, vec![Event::Pass("a".to_string())]);
    assert_eq!(stopped, Event::ProcessingFinished("b".to_string()));
    // the message behind the stop message was never handed to the handler
    assert_eq!(spare.try_recv().unwrap(), Event::Pass("c".to_string()));
}

#[test]
fn dead_subscriber_does_not_block_publish() {
    let mut publisher = Publisher::new();
    let dead = publisher.subscribe();
    let alive = publisher.subscribe();
    drop(dead);
    assert_eq!(publisher.publish(Event::Pass("still here".to_string())), 1);
    assert_eq!(alive.try_recv().unwrap(), Event::Pass("still here".to_string()));
    // the dead producer-end was pruned; later publishes go on undisturbed
    assert_eq!(publisher.publish(Event::Pass("again".to_string())), 1);
    assert_eq!(alive.try_recv().unwrap(), Event::Pass("again".to_string()));
}

#[test]
fn scenario_two_listeners_and_a_callback() {
    let mut publisher = Publisher::new();
    let callback_rx = publisher.subscribe();
    let l1_rx = publisher.subscribe();
    let l2_rx = publisher.subscribe();
    publisher.publish(Event::Pass("a".to_string()));
    publisher.publish(Event::ProcessingFinished("b".to_string()));

    let stopped = loop {
        match callback_step(&callback_rx, always_stop) {
            CallbackOutcome::Stopped(event) => break event,
            CallbackOutcome::Handled(_) => panic!("the handler always answers Stop"),
            CallbackOutcome::Idle => panic!("messages should be queued"),
            CallbackOutcome::Disconnected => panic!("the producer-end is still alive"),
        }
    };
    assert_eq!(stopped, Event::Pass("a".to_string()));

    for (name, receiver) in [("l1", l1_rx), ("l2", l2_rx)] {
        let mut ep = EventProcessor {
            id: name.to_string(),
            publisher: publisher.clone(),
            receiver,
            processed: Vec::new(),
        };
        drain_listener(&mut ep);
        assert_eq!(
            ep.processed,
            vec![
                Event::Pass("a".to_string()),
                Event::ProcessingFinished("b".to_string()),
            ]
        );
    }
}

#[test]
fn publish_with_no_subscribers_is_a_no_op() {
    let mut publisher = Publisher::new();
    assert_eq!(publisher.publish(Event::Pass("nobody".to_string())), 0);
}

#[test]
fn listener_sees_disconnection_as_a_fail_event() {
    let mut publisher = Publisher::new();
    let receiver = publisher.subscribe();
    drop(publisher);
    let mut ep = EventProcessor {
        id: "lone".to_string(),
        publisher: Publisher::new(),
        receiver,
        processed: Vec::new(),
    };
    match ep.listen_step() {
        ListenOutcome::Received(event) => {
            assert_eq!(event, Event::Fail("Error receiving - Disconnected".to_string()));
        }
        other => panic!("expected a synthesized Fail event, got {:?}", other),
    }
    assert_eq!(ep.processed.len(), 1);
}

#[test]
fn callback_stops_on_disconnection() {
    let mut publisher = Publisher::new();
    let receiver = publisher.subscribe();
    publisher.publish(Event::Pass("a".to_string()));
    drop(publisher);
    match callback_step(&receiver, always_start) {
        CallbackOutcome::Handled(event) => assert_eq!(event, Event::Pass("a".to_string())),
        other => panic!("expected the queued message first, got {:?}", other),
    }
    match callback_step(&receiver, always_start) {
        CallbackOutcome::Disconnected => {}
        other => panic!("expected disconnection, got {:?}", other),
    }
}

#[test]
fn empty_queue_is_idle_not_an_error() {
    let mut publisher = Publisher::new();
    let callback_rx = publisher.subscribe();
    let listener_rx = publisher.subscribe();
    assert_eq!(callback_step(&callback_rx, always_start), CallbackOutcome::Idle);
    let mut ep = EventProcessor {
        id: "idle".to_string(),
        publisher: publisher.clone(),
        receiver: listener_rx,
        processed: Vec::new(),
    };
    assert_eq!(ep.listen_step(), ListenOutcome::Idle);
    assert!(ep.processed.is_empty());
}

#[test]
fn dispatch_records_and_classifies_each_poll_result() {
    let mut publisher = Publisher::new();
    let receiver = publisher.subscribe();
    let mut ep = EventProcessor {
        id: "d".to_string(),
        publisher,
        receiver,
        processed: Vec::new(),
    };
    assert_eq!(ep.dispatch(Poll::Empty), ListenOutcome::Idle);
    assert!(ep.processed.is_empty());
    assert_eq!(
        ep.dispatch(Poll::Message(Event::Pass("a".to_string()))),
        ListenOutcome::Received(Event::Pass("a".to_string()))
    );
    assert_eq!(
        ep.dispatch(Poll::Message(Event::ProcessingFinished("b".to_string()))),
        ListenOutcome::Finished(Event::ProcessingFinished("b".to_string()))
    );
    assert_eq!(
        ep.dispatch(Poll::Disconnected),
        ListenOutcome::Received(Event::Fail("Error receiving - Disconnected".to_string()))
    );
    assert_eq!(
        ep.processed,
        vec![
            Event::Pass("a".to_string()),
            Event::ProcessingFinished("b".to_string()),
            Event::Fail("Error receiving - Disconnected".to_string()),
        ]
    );
}

#[test]
fn decide_maps_each_poll_result() {
    assert_eq!(decide(Poll::Empty, always_start), CallbackOutcome::Idle);
    assert_eq!(decide(Poll::Disconnected, always_start), CallbackOutcome::Disconnected);
    assert_eq!(
        decide(Poll::Message(Event::Pass("a".to_string())), always_start),
        CallbackOutcome::Handled(Event::Pass("a".to_string()))
    );
    assert_eq!(
        decide(Poll::Message(Event::Pass("a".to_string())), always_stop),
        CallbackOutcome::Stopped(Event::Pass("a".to_string()))
    );
}

#[test]
fn cloned_handle_reaches_subscribers_registered_before_the_clone() {
    let mut publisher = Publisher::new();
    let receiver = publisher.subscribe();
    let mut handle = publisher.clone();
    handle.publish(Event::Pass("via clone".to_string()));
    assert_eq!(receiver.try_recv().unwrap(), Event::Pass("via clone".to_string()));
}

#[test]
fn cloned_handle_does_not_see_later_registrations() {
    let mut publisher = Publisher::new();
    let mut handle = publisher.clone();
    let receiver = publisher.subscribe();
    // a handle cloned before the registration has its own producer-end list:
    // publishing through it does not reach the new subscriber
    handle.publish(Event::Pass("missed".to_string()));
    assert_eq!(receiver.try_recv(), Err(crossbeam_channel::TryRecvError::Empty));
    publisher.publish(Event::Pass("seen".to_string()));
    assert_eq!(receiver.try_recv().unwrap(), Event::Pass("seen".to_string()));
}

#[test]
fn messages_compare_structurally_and_clone_equal() {
    let event = Event::ProcessingFinished("x".to_string());
    assert_eq!(event.clone(), event);
    assert_ne!(Event::Pass("x".to_string()), Event::Fail("x".to_string()));
    assert_ne!(Event::Pass("x".to_string()), Event::Pass("y".to_string()));
    assert_eq!(Command::Stop.clone(), Command::Stop);
    assert_ne!(Command::Start, Command::Stop);
}
