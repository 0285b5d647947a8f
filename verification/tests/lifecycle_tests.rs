use pipeline_sidecar::lifecycle::{
    Action, Coordinator, ErrorReport, Event, Phase, StatusMessage, StopCause,
};

fn running() -> Coordinator {
    let mut coordinator = Coordinator::new();
    assert_eq!(coordinator.on_event(Event::Started), Action::Wait);
    coordinator
}

fn report() -> ErrorReport {
    ErrorReport {
        source: "Some(\"/GstPipeline:pipeline0/GstVideoTestSrc:videotestsrc0\")".to_string(),
        detail: "Internal data stream error. (Some(\"streaming stopped, reason not-negotiated\"))"
            .to_string(),
    }
}

fn replay(coordinator: &mut Coordinator, events: Vec<Event>) -> Vec<Action> {
    let mut actions = Vec::new();
    for event in events {
        actions.push(coordinator.on_event(event));
    }
    actions
}

fn teardowns(actions: &[Action]) -> usize {
    actions.iter().filter(|action| matches!(action, Action::Teardown { .. })).count()
}

fn rank(phase: Phase) -> u8 {
    match phase {
        Phase::Starting => 0,
        Phase::Running => 1,
        Phase::Stopping(_) => 2,
        Phase::Stopped(_) => 3,
    }
}

#[test]
fn coordinator_begins_in_starting_phase() {
    assert_eq!(Coordinator::new().phase(), Phase::Starting);
}

#[test]
fn start_notice_enters_the_loop() {
    let mut coordinator = Coordinator::new();
    assert_eq!(coordinator.on_event(Event::Started), Action::Wait);
    assert_eq!(coordinator.phase(), Phase::Running);
}

#[test]
fn other_messages_change_nothing() {
    let mut coordinator = running();
    for _ in 0..5 {
        assert_eq!(coordinator.on_event(Event::Message(StatusMessage::Other)), Action::Wait);
        assert_eq!(coordinator.phase(), Phase::Running);
    }
}

#[test]
fn end_of_stream_orders_teardown_without_report() {
    let mut coordinator = running();
    assert_eq!(
        coordinator.on_event(Event::Message(StatusMessage::EndOfStream)),
        Action::Teardown { report: None }
    );
    assert_eq!(coordinator.phase(), Phase::Stopping(StopCause::EndOfStream));
}

#[test]
fn error_orders_teardown_with_its_report() {
    let mut coordinator = running();
    assert_eq!(
        coordinator.on_event(Event::Message(StatusMessage::Error(report()))),
        Action::Teardown { report: Some(report()) }
    );
    assert_eq!(coordinator.phase(), Phase::Stopping(StopCause::PipelineError));
}

#[test]
fn end_of_stream_path_hands_control_back() {
    let mut coordinator = running();
    coordinator.on_event(Event::Message(StatusMessage::EndOfStream));
    assert_eq!(coordinator.on_event(Event::TornDown), Action::ReturnToCaller);
    assert_eq!(coordinator.phase(), Phase::Stopped(StopCause::EndOfStream));
}

#[test]
fn error_path_hands_control_back() {
    let mut coordinator = running();
    coordinator.on_event(Event::Message(StatusMessage::Error(report())));
    assert_eq!(coordinator.on_event(Event::TornDown), Action::ReturnToCaller);
    assert_eq!(coordinator.phase(), Phase::Stopped(StopCause::PipelineError));
}

#[test]
fn messages_after_end_of_stream_are_dropped() {
    let mut coordinator = Coordinator::new();
    let actions = replay(
        &mut coordinator,
        vec![
            Event::Started,
            Event::Message(StatusMessage::Other),
            Event::Message(StatusMessage::EndOfStream),
            Event::Message(StatusMessage::Other),
            Event::Message(StatusMessage::EndOfStream),
            Event::Message(StatusMessage::Error(report())),
        ],
    );
    assert_eq!(
        actions,
        vec![
            Action::Wait,
            Action::Wait,
            Action::Teardown { report: None },
            Action::Discard,
            Action::Discard,
            Action::Discard,
        ]
    );
    assert_eq!(teardowns(&actions), 1);
    assert_eq!(coordinator.phase(), Phase::Stopping(StopCause::EndOfStream));
}

#[test]
fn messages_after_an_error_are_dropped() {
    let mut coordinator = running();
    let actions = replay(
        &mut coordinator,
        vec![
            Event::Message(StatusMessage::Error(report())),
            Event::Message(StatusMessage::EndOfStream),
            Event::TornDown,
            Event::Message(StatusMessage::Error(report())),
        ],
    );
    assert_eq!(
        actions,
        vec![
            Action::Teardown { report: Some(report()) },
            Action::Discard,
            Action::ReturnToCaller,
            Action::Discard,
        ]
    );
    assert_eq!(coordinator.phase(), Phase::Stopped(StopCause::PipelineError));
}

#[test]
fn signal_in_the_loop_tears_down_then_exits() {
    let mut coordinator = running();
    assert_eq!(coordinator.on_event(Event::Signal), Action::Teardown { report: None });
    assert_eq!(coordinator.phase(), Phase::Stopping(StopCause::Signal));
    assert_eq!(coordinator.on_event(Event::TornDown), Action::ExitProcess);
    assert_eq!(coordinator.phase(), Phase::Stopped(StopCause::Signal));
}

#[test]
fn signal_before_the_loop_tears_down_then_exits() {
    let mut coordinator = Coordinator::new();
    assert_eq!(coordinator.on_event(Event::Signal), Action::Teardown { report: None });
    assert_eq!(coordinator.on_event(Event::TornDown), Action::ExitProcess);
    assert_eq!(coordinator.phase(), Phase::Stopped(StopCause::Signal));
}

#[test]
fn signal_during_teardown_exits_without_second_teardown() {
    let mut coordinator = running();
    let actions = replay(
        &mut coordinator,
        vec![Event::Message(StatusMessage::EndOfStream), Event::Signal, Event::TornDown],
    );
    assert_eq!(
        actions,
        vec![Action::Teardown { report: None }, Action::ExitProcess, Action::Discard]
    );
    assert_eq!(teardowns(&actions), 1);
    assert_eq!(coordinator.phase(), Phase::Stopped(StopCause::Signal));
}

#[test]
fn signal_after_stop_exits_without_second_teardown() {
    let mut coordinator = running();
    let actions = replay(
        &mut coordinator,
        vec![
            Event::Message(StatusMessage::EndOfStream),
            Event::TornDown,
            Event::Signal,
            Event::Signal,
        ],
    );
    assert_eq!(
        actions,
        vec![
            Action::Teardown { report: None },
            Action::ReturnToCaller,
            Action::ExitProcess,
            Action::ExitProcess,
        ]
    );
    assert_eq!(teardowns(&actions), 1);
}

#[test]
fn repeated_signals_order_one_teardown() {
    let mut coordinator = running();
    let actions = replay(
        &mut coordinator,
        vec![Event::Signal, Event::Signal, Event::Signal, Event::TornDown],
    );
    assert_eq!(
        actions,
        vec![
            Action::Teardown { report: None },
            Action::ExitProcess,
            Action::ExitProcess,
            Action::Discard,
        ]
    );
    assert_eq!(teardowns(&actions), 1);
    assert!(!actions.contains(&Action::ReturnToCaller));
}

#[test]
fn events_out_of_place_are_dropped() {
    let mut coordinator = Coordinator::new();
    assert_eq!(coordinator.on_event(Event::TornDown), Action::Discard);
    assert_eq!(coordinator.on_event(Event::Message(StatusMessage::EndOfStream)), Action::Discard);
    assert_eq!(coordinator.on_event(Event::Message(StatusMessage::Other)), Action::Discard);
    assert_eq!(coordinator.phase(), Phase::Starting);

    let mut coordinator = running();
    assert_eq!(coordinator.on_event(Event::Started), Action::Discard);
    assert_eq!(coordinator.on_event(Event::TornDown), Action::Discard);
    assert_eq!(coordinator.phase(), Phase::Running);

    coordinator.on_event(Event::Message(StatusMessage::EndOfStream));
    assert_eq!(coordinator.on_event(Event::Started), Action::Discard);
    assert_eq!(coordinator.phase(), Phase::Stopping(StopCause::EndOfStream));

    coordinator.on_event(Event::TornDown);
    for event in [Event::Started, Event::TornDown, Event::Message(StatusMessage::Other)] {
        assert_eq!(coordinator.on_event(event), Action::Discard);
        assert_eq!(coordinator.phase(), Phase::Stopped(StopCause::EndOfStream));
    }
}

#[test]
fn phases_never_turn_back() {
    let events = vec![
        Event::TornDown,
        Event::Started,
        Event::Started,
        Event::Message(StatusMessage::Other),
        Event::Message(StatusMessage::Error(report())),
        Event::Started,
        Event::Message(StatusMessage::EndOfStream),
        Event::TornDown,
        Event::Started,
        Event::Signal,
        Event::TornDown,
        Event::Message(StatusMessage::Other),
    ];
    let mut coordinator = Coordinator::new();
    let mut last = rank(coordinator.phase());
    let mut ordered = 0;
    for event in events {
        if let Action::Teardown { .. } = coordinator.on_event(event) {
            ordered += 1;
        }
        let now = rank(coordinator.phase());
        assert!(last <= now);
        last = now;
    }
    assert_eq!(ordered, 1);
    assert_eq!(coordinator.phase(), Phase::Stopped(StopCause::Signal));
}
