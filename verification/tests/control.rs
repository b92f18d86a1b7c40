use status_panel::bounded::StatusText;
use status_panel::control::{
    candidate_text, fetch_timed_out, Action, ControlLoop, Event, FetchOutcome, Phase,
    RenderedState, DEFAULT_TICK_SECONDS, FETCH_TIMEOUT_SECONDS,
};

fn success(text: &str) -> FetchOutcome {
    FetchOutcome::Success(StatusText::from_text(text).unwrap())
}

fn failure(cause: &str) -> FetchOutcome {
    FetchOutcome::RecoverableError(cause.to_string())
}

fn shown(machine: &ControlLoop) -> Option<String> {
    match machine.rendered() {
        RenderedState::Nothing => None,
        RenderedState::Shown(text) => Some(text.as_str().to_string()),
    }
}

/// A loop that has its link and waits for the first fetch.
fn polling_loop() -> ControlLoop {
    let machine = ControlLoop::new(60);
    assert_eq!(machine.awaited(), Action::AcquireLink);
    let (machine, action) = machine.step(Event::LinkAcquired);
    assert_eq!(action, Action::FetchStatus);
    machine
}

/// Drives one tick for each outcome, as the loop asks, with a panel that takes
/// every frame. Returns the loop and the texts committed.
fn drive(mut machine: ControlLoop, outcomes: Vec<FetchOutcome>) -> (ControlLoop, Vec<String>) {
    let mut commits = Vec::new();
    for outcome in outcomes {
        assert_eq!(machine.awaited(), Action::FetchStatus);
        let (next, mut action) = machine.step(Event::Outcome(outcome));
        machine = next;
        if action == Action::Render {
            commits.push(machine.frame().unwrap().as_str().to_string());
            let (next, after) = machine.step(Event::CommitDone);
            machine = next;
            action = after;
        }
        assert_eq!(action, Action::Sleep(60));
        assert!(machine.frame().is_none());
        let (next, action) = machine.step(Event::TickElapsed);
        machine = next;
        assert_eq!(action, Action::FetchStatus);
    }
    (machine, commits)
}

#[test]
fn equal_texts_are_committed_once() {
    let outcomes = vec![success("A"), success("A"), success("A"), success("B")];
    let (machine, commits) = drive(polling_loop(), outcomes);
    assert_eq!(commits, vec!["A", "B"]);
    assert_eq!(shown(&machine), Some("B".to_string()));
}

#[test]
fn texts_equal_after_trimming_are_committed_once() {
    let outcomes = vec![success("A"), success("A \n"), success("A\t"), success(" A")];
    let (_, commits) = drive(polling_loop(), outcomes);
    assert_eq!(commits, vec!["A", " A"]);
}

#[test]
fn alice_error_alice() {
    let outcomes = vec![success("Alice"), success("Alice"), failure("timeout"), success("Alice")];
    let (machine, commits) = drive(polling_loop(), outcomes);
    assert_eq!(commits, vec!["Alice", "Err: timeout", "Alice"]);
    assert_eq!(commits.len(), 3);
    assert_eq!(shown(&machine), Some("Alice".to_string()));
}

#[test]
fn first_text_is_rendered_even_if_empty() {
    let machine = polling_loop();
    assert_eq!(shown(&machine), None);
    let (machine, action) = machine.step(Event::Outcome(success("")));
    assert_eq!(action, Action::Render);
    assert_eq!(machine.frame().unwrap().as_str(), "");
    let (machine, action) = machine.step(Event::CommitDone);
    assert_eq!(action, Action::Sleep(60));
    assert_eq!(shown(&machine), Some(String::new()));
    // The same empty text again is no change.
    let (machine, _) = machine.step(Event::TickElapsed);
    let (machine, action) = machine.step(Event::Outcome(success("  ")));
    assert_eq!(action, Action::Sleep(60));
    assert!(machine.frame().is_none());
}

#[test]
fn link_failure_halts_without_a_poll() {
    let machine = ControlLoop::new(60);
    let outcome = FetchOutcome::FatalLinkError("Disconnected".to_string());
    let (machine, action) = machine.step(Event::Outcome(outcome));
    assert_eq!(action, Action::Render);
    assert_eq!(machine.frame().unwrap().as_str(), "Failed to connect to network: Di");
    assert!(machine.link().is_none());
    assert!(!machine.is_halted());
    let (machine, action) = machine.step(Event::CommitDone);
    assert_eq!(action, Action::Halt);
    assert!(machine.is_halted());
    assert!(machine.link().is_none());
    assert_eq!(shown(&machine), Some("Failed to connect to network: Di".to_string()));
    // Nothing brings a halted loop back.
    let mut machine = machine;
    let events = vec![
        Event::LinkAcquired,
        Event::TickElapsed,
        Event::Outcome(success("Alice")),
        Event::CommitDone,
        Event::CommitFailed,
        Event::Outcome(FetchOutcome::FatalLinkError("again".to_string())),
    ];
    for event in events {
        let (next, action) = machine.step(event);
        machine = next;
        assert_eq!(action, Action::Halt);
        assert!(machine.is_halted());
        assert!(machine.frame().is_none());
    }
}

#[test]
fn link_failure_halts_even_if_the_panel_rejects_the_report() {
    let machine = ControlLoop::new(60);
    let outcome = FetchOutcome::FatalLinkError("x".to_string());
    let (machine, _) = machine.step(Event::Outcome(outcome));
    let (machine, action) = machine.step(Event::CommitFailed);
    assert_eq!(action, Action::Halt);
    assert!(machine.is_halted());
    assert_eq!(shown(&machine), None);
}

#[test]
fn fetch_failures_are_shown_and_the_loop_goes_on() {
    let causes = ["timeout 1", "timeout 2", "timeout 3", "timeout 4", "timeout 5"];
    let outcomes = causes.iter().map(|cause| failure(cause)).collect();
    let (machine, commits) = drive(polling_loop(), outcomes);
    assert_eq!(
        commits,
        vec![
            "Err: timeout 1",
            "Err: timeout 2",
            "Err: timeout 3",
            "Err: timeout 4",
            "Err: timeout 5"
        ]
    );
    assert!(!machine.is_halted());
    assert!(machine.link().is_some());
    assert_eq!(machine.awaited(), Action::FetchStatus);
}

#[test]
fn the_same_failure_is_shown_once() {
    let outcomes = vec![failure("timeout"), failure("timeout"), failure("timeout")];
    let (machine, commits) = drive(polling_loop(), outcomes);
    assert_eq!(commits, vec!["Err: timeout"]);
    assert!(!machine.is_halted());
}

#[test]
fn link_error_reported_by_a_fetch_is_shown_not_fatal() {
    let outcomes = vec![FetchOutcome::FatalLinkError("gone".to_string())];
    let (machine, commits) = drive(polling_loop(), outcomes);
    assert_eq!(commits, vec!["Err: gone"]);
    assert!(!machine.is_halted());
    assert!(machine.link().is_some());
}

#[test]
fn rejected_commit_leaves_the_rendered_state() {
    let (machine, _) = drive(polling_loop(), vec![success("Alice")]);
    let (machine, action) = machine.step(Event::Outcome(success("Bob")));
    assert_eq!(action, Action::Render);
    let (machine, action) = machine.step(Event::CommitFailed);
    assert_eq!(action, Action::Sleep(60));
    assert_eq!(shown(&machine), Some("Alice".to_string()));
    // The next tick tries again.
    let (machine, _) = machine.step(Event::TickElapsed);
    let (machine, action) = machine.step(Event::Outcome(success("Bob")));
    assert_eq!(action, Action::Render);
    assert_eq!(machine.frame().unwrap().as_str(), "Bob");
    let (machine, _) = machine.step(Event::CommitDone);
    assert_eq!(shown(&machine), Some("Bob".to_string()));
}

#[test]
fn events_out_of_turn_change_nothing() {
    // Before the link is there, no fetch outcome is taken.
    let (machine, action) = ControlLoop::new(10).step(Event::Outcome(success("Alice")));
    assert_eq!(action, Action::AcquireLink);
    let (machine, action) = machine.step(Event::TickElapsed);
    assert_eq!(action, Action::AcquireLink);
    let (machine, action) = machine.step(Event::CommitDone);
    assert_eq!(action, Action::AcquireLink);
    assert_eq!(shown(&machine), None);
    let (machine, action) = machine.step(Event::LinkAcquired);
    assert_eq!(action, Action::FetchStatus);
    // While fetching, neither the tick nor the panel is waited for.
    let (machine, action) = machine.step(Event::TickElapsed);
    assert_eq!(action, Action::FetchStatus);
    let (machine, action) = machine.step(Event::CommitDone);
    assert_eq!(action, Action::FetchStatus);
    let (machine, action) = machine.step(Event::LinkAcquired);
    assert_eq!(action, Action::FetchStatus);
    let (machine, action) = machine.step(Event::Outcome(success("Alice")));
    assert_eq!(action, Action::Render);
    // While rendering, a second outcome is not taken.
    let (machine, action) = machine.step(Event::Outcome(success("Bob")));
    assert_eq!(action, Action::Render);
    assert_eq!(machine.frame().unwrap().as_str(), "Alice");
    let (machine, action) = machine.step(Event::CommitDone);
    assert_eq!(action, Action::Sleep(10));
    // While idle, only the tick counts.
    let (machine, action) = machine.step(Event::Outcome(success("Bob")));
    assert_eq!(action, Action::Sleep(10));
    assert_eq!(shown(&machine), Some("Alice".to_string()));
}

#[test]
fn phases_follow_one_tick() {
    let machine = ControlLoop::new(60);
    assert!(matches!(machine.phase(), Phase::AcquiringLink));
    let (machine, _) = machine.step(Event::LinkAcquired);
    assert!(matches!(machine.phase(), Phase::Fetching));
    let (machine, _) = machine.step(Event::Outcome(success("Alice")));
    match machine.phase() {
        Phase::Rendering(text) => assert_eq!(text.as_str(), "Alice"),
        other => panic!("expected a render, got {other:?}"),
    }
    let (machine, _) = machine.step(Event::CommitDone);
    assert!(matches!(machine.phase(), Phase::Idle));
    let (machine, _) = machine.step(Event::TickElapsed);
    assert!(matches!(machine.phase(), Phase::Fetching));
    let (machine, _) = machine.step(Event::Outcome(success("Alice")));
    assert!(matches!(machine.phase(), Phase::Idle));
}

#[test]
fn fetch_given_up_is_a_failure_worded_timeout() {
    assert_eq!(FETCH_TIMEOUT_SECONDS, 30);
    match fetch_timed_out() {
        FetchOutcome::RecoverableError(cause) => assert_eq!(cause, "timeout"),
        other => panic!("expected a failure of the fetch, got {other:?}"),
    }
    assert_eq!(candidate_text(&fetch_timed_out()).as_str(), "Err: timeout");
    let outcomes = vec![success("Alice"), fetch_timed_out(), fetch_timed_out(), success("Alice")];
    let (machine, commits) = drive(polling_loop(), outcomes);
    assert_eq!(commits, vec!["Alice", "Err: timeout", "Alice"]);
    assert!(!machine.is_halted());
}

#[test]
fn tick_interval_is_what_was_asked_for() {
    assert_eq!(DEFAULT_TICK_SECONDS, 60);
    let (machine, _) = ControlLoop::new(10).step(Event::LinkAcquired);
    let (machine, _) = machine.step(Event::Outcome(success("Alice")));
    let (_, action) = machine.step(Event::CommitDone);
    assert_eq!(action, Action::Sleep(10));
}

#[test]
fn candidate_is_trimmed_and_cut() {
    assert_eq!(candidate_text(&success("Alice  \n")).as_str(), "Alice");
    assert_eq!(candidate_text(&failure("timeout")).as_str(), "Err: timeout");
    assert_eq!(candidate_text(&failure("")).as_str(), "Err:");
    let long = failure(&"x".repeat(200));
    assert_eq!(candidate_text(&long).as_str(), format!("Err: {}", "x".repeat(27)));
    // Cut first, then trimmed: the cut leaves white space at the end.
    let spaced = failure(&format!("{}    tail", "y".repeat(25)));
    assert_eq!(candidate_text(&spaced).as_str(), format!("Err: {}", "y".repeat(25)));
}

#[test]
fn rendered_state_shows_its_text() {
    let alice = StatusText::from_text("Alice").unwrap();
    let bob = StatusText::from_text("Bob").unwrap();
    assert!(!RenderedState::Nothing.shows(&alice));
    assert!(!RenderedState::Nothing.shows(&StatusText::new()));
    let state = RenderedState::Shown(StatusText::from_text("Alice").unwrap());
    assert!(state.shows(&alice));
    assert!(!state.shows(&bob));
}
