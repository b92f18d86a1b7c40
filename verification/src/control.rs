//! The control loop of the panel, as a state machine.
//!
//! The loop acquires the network link once, then polls: fetch the status, turn
//! the outcome into the text to show, redraw the panel only if that text
//! differs from what the panel shows, sleep, and fetch again. A link that
//! cannot be acquired is reported on the panel and ends in a halt; nothing
//! that a fetch reports does.
//!
//! The machine decides; its driver acts. The driver performs the action that
//! the machine awaits and hands back what happened as an [`Event`].
//!
//! A commit that the panel rejects while polling is not fatal here: the text
//! counts as not shown, the loop goes on, and the next tick tries again.

use crate::bounded::{StatusText, MAX_TEXT_BYTES};
use crate::report::{error_text, format_error};
use crate::text::{byte_len, is_trimmed, lemma_truncated_fits, trimmed, truncated};
use vstd::prelude::*;

verus! {

/// How a fetch of the status, or the acquisition of the link, ended.
#[derive(Debug)]
pub enum FetchOutcome {
    /// The status text that the backend gave.
    Success(StatusText),
    /// The fetch failed; the description says how.
    RecoverableError(String),
    /// The network could not be joined; the description says why.
    FatalLinkError(String),
}

/// A fetch outcome as plain text.
pub enum OutcomeView {
    Success(Seq<char>),
    RecoverableError(Seq<char>),
    FatalLinkError(Seq<char>),
}

impl View for FetchOutcome {
    type V = OutcomeView;

    open spec fn view(&self) -> OutcomeView {
        match self {
            FetchOutcome::Success(text) => OutcomeView::Success(text@),
            FetchOutcome::RecoverableError(cause) => OutcomeView::RecoverableError(cause@),
            FetchOutcome::FatalLinkError(cause) => OutcomeView::FatalLinkError(cause@),
        }
    }
}

/// The text that the panel should show after a fetch ended with `outcome`:
/// the status, or the line `Err: <cause>`, cut to the panel's width and then
/// stripped of trailing white space. (A status text fits the panel as it is:
/// cutting changes one only in the model, where any text can stand for it.)
///
/// A failure of a fetch is shown, never escalated; that holds of a link error
/// too, once the loop polls.
pub open spec fn candidate(outcome: OutcomeView) -> Seq<char> {
    match outcome {
        OutcomeView::Success(text) => trimmed(truncated(text, MAX_TEXT_BYTES as nat)),
        OutcomeView::RecoverableError(cause) => trimmed(error_text("Err"@, cause)),
        OutcomeView::FatalLinkError(cause) => trimmed(error_text("Err"@, cause)),
    }
}

/// The text shown when the link could not be acquired.
pub open spec fn link_failure_text(cause: Seq<char>) -> Seq<char> {
    error_text("Failed to connect to network"@, cause)
}

/// Computes the text that the panel should show after `outcome`.
pub fn candidate_text(outcome: &FetchOutcome) -> (text: StatusText)
    ensures
        text@ == candidate(outcome@),
        is_trimmed(text@),
        byte_len(text@) <= MAX_TEXT_BYTES,
{
    let text = match outcome {
        FetchOutcome::Success(status) => {
            proof {
                use_type_invariant(status);
                lemma_truncated_fits(status@, MAX_TEXT_BYTES as nat);
            }
            status.trim_end()
        },
        FetchOutcome::RecoverableError(cause) => format_error("Err", cause.as_str()).trim_end(),
        FetchOutcome::FatalLinkError(cause) => format_error("Err", cause.as_str()).trim_end(),
    };
    proof {
        use_type_invariant(&text);
    }
    text
}

/// Seconds between two ticks, unless the loop is made with another interval.
pub const DEFAULT_TICK_SECONDS: u64 = 60;

/// Seconds that a fetch may take. One that has not ended by then is given up
/// and counts as failed.
pub const FETCH_TIMEOUT_SECONDS: u64 = 30;

/// The outcome of a fetch that did not end within `FETCH_TIMEOUT_SECONDS`: a
/// failure like any other, with the cause `timeout`.
pub fn fetch_timed_out() -> (outcome: FetchOutcome)
    ensures
        outcome@ == OutcomeView::RecoverableError("timeout"@),
{
    FetchOutcome::RecoverableError("timeout".to_owned())
}

/// What the panel shows.
#[derive(Debug)]
pub enum RenderedState {
    /// Nothing was rendered yet.
    Nothing,
    /// The text of the last commit that the panel accepted.
    Shown(StatusText),
}

impl View for RenderedState {
    type V = Option<Seq<char>>;

    open spec fn view(&self) -> Option<Seq<char>> {
        match self {
            RenderedState::Nothing => None,
            RenderedState::Shown(text) => Some(text@),
        }
    }
}

impl RenderedState {
    /// Whether the panel shows exactly `text`.
    pub fn shows(&self, text: &StatusText) -> (b: bool)
        ensures
            b == (self@ == Some(text@)),
    {
        match self {
            RenderedState::Nothing => false,
            RenderedState::Shown(shown) => shown.same_text(text),
        }
    }
}

/// Proof that the link was acquired. Only the control loop makes one.
#[derive(Debug)]
pub struct LinkHandle {
    token: (),
}

/// What the driver reports to the machine.
#[derive(Debug)]
pub enum Event {
    /// The network link was acquired.
    LinkAcquired,
    /// A fetch, or the acquisition of the link, ended.
    Outcome(FetchOutcome),
    /// The panel accepted the frame.
    CommitDone,
    /// The panel rejected the frame.
    CommitFailed,
    /// The sleep between two ticks is over.
    TickElapsed,
}

/// An event as plain text.
pub enum EventView {
    LinkAcquired,
    Outcome(OutcomeView),
    CommitDone,
    CommitFailed,
    TickElapsed,
}

impl View for Event {
    type V = EventView;

    open spec fn view(&self) -> EventView {
        match self {
            Event::LinkAcquired => EventView::LinkAcquired,
            Event::Outcome(outcome) => EventView::Outcome(outcome@),
            Event::CommitDone => EventView::CommitDone,
            Event::CommitFailed => EventView::CommitFailed,
            Event::TickElapsed => EventView::TickElapsed,
        }
    }
}

/// What the machine asks its driver to do next.
#[derive(Clone, Copy, Debug, PartialEq, Eq, Structural)]
pub enum Action {
    /// Acquire the network link.
    AcquireLink,
    /// Fetch the status.
    FetchStatus,
    /// Clear the panel, draw the frame's text and commit it.
    Render,
    /// Sleep for so many seconds.
    Sleep(u64),
    /// Power down for good.
    Halt,
}

/// Where the loop stands.
#[derive(Debug)]
pub enum Phase {
    /// Waiting for the link.
    AcquiringLink,
    /// Waiting for a fetch to end.
    Fetching,
    /// Waiting for the panel to take the new text.
    Rendering(StatusText),
    /// Waiting for the next tick.
    Idle,
    /// Waiting for the panel to take the report of the link failure.
    Failing(StatusText),
    /// Powered down: nothing happens any more.
    Halted,
}

/// A phase as plain text.
pub enum PhaseView {
    AcquiringLink,
    Fetching,
    Rendering(Seq<char>),
    Idle,
    Failing(Seq<char>),
    Halted,
}

impl View for Phase {
    type V = PhaseView;

    open spec fn view(&self) -> PhaseView {
        match self {
            Phase::AcquiringLink => PhaseView::AcquiringLink,
            Phase::Fetching => PhaseView::Fetching,
            Phase::Rendering(text) => PhaseView::Rendering(text@),
            Phase::Idle => PhaseView::Idle,
            Phase::Failing(text) => PhaseView::Failing(text@),
            Phase::Halted => PhaseView::Halted,
        }
    }
}

/// The state of the control loop as plain values.
pub struct LoopView {
    pub phase: PhaseView,
    pub rendered: Option<Seq<char>>,
    pub link_held: bool,
    pub tick_seconds: u64,
}

/// Whether the loop is polling: past the acquisition of the link, and not on
/// the way to the halt.
pub open spec fn polling(phase: PhaseView) -> bool {
    phase is Fetching || phase is Rendering || phase is Idle
}

/// What holds of every state that the loop can be in.
pub open spec fn well_formed(s: LoopView) -> bool {
    &&& s.link_held <==> polling(s.phase)
    &&& s.phase is AcquiringLink || s.phase is Failing ==> s.rendered is None
    &&& s.phase matches PhaseView::Rendering(text) ==> s.rendered != Some(text) && is_trimmed(text)
        && byte_len(text) <= MAX_TEXT_BYTES
    &&& s.phase matches PhaseView::Failing(text) ==> byte_len(text) <= MAX_TEXT_BYTES
    &&& s.rendered matches Some(text) ==> byte_len(text) <= MAX_TEXT_BYTES
}

/// The state in which the loop starts: no link, nothing rendered.
pub open spec fn initial(tick_seconds: u64) -> LoopView {
    LoopView {
        phase: PhaseView::AcquiringLink,
        rendered: None,
        link_held: false,
        tick_seconds,
    }
}

/// The state after event `e` in state `s`. An event that the phase does not
/// wait for changes nothing.
///
/// - Waiting for the link: its acquisition starts the first fetch; a fatal
///   link error leads to the report of it.
/// - Fetching: the outcome's candidate text is held against what the panel
///   shows. If they are equal, nothing is drawn and the loop sleeps; if not,
///   the loop asks for the render.
/// - Rendering: when the panel took the frame, it is what the panel shows from
///   now on; when the panel rejected it, what the panel shows stays as it
///   was. Either way the loop sleeps.
/// - Idle: the end of the sleep starts the next fetch.
/// - Reporting the link failure: whatever the panel answers, the loop halts.
/// - Halted: nothing changes any more.
pub open spec fn transition(s: LoopView, e: EventView) -> LoopView {
    match (s.phase, e) {
        (PhaseView::AcquiringLink, EventView::LinkAcquired) => LoopView {
            phase: PhaseView::Fetching,
            link_held: true,
            ..s
        },
        (PhaseView::AcquiringLink, EventView::Outcome(OutcomeView::FatalLinkError(cause))) => LoopView {
            phase: PhaseView::Failing(link_failure_text(cause)),
            ..s
        },
        (PhaseView::Fetching, EventView::Outcome(outcome)) => if s.rendered == Some(
            candidate(outcome),
        ) {
            LoopView { phase: PhaseView::Idle, ..s }
        } else {
            LoopView { phase: PhaseView::Rendering(candidate(outcome)), ..s }
        },
        (PhaseView::Rendering(text), EventView::CommitDone) => LoopView {
            phase: PhaseView::Idle,
            rendered: Some(text),
            ..s
        },
        (PhaseView::Rendering(_), EventView::CommitFailed) => LoopView { phase: PhaseView::Idle, ..s },
        (PhaseView::Idle, EventView::TickElapsed) => LoopView { phase: PhaseView::Fetching, ..s },
        (PhaseView::Failing(text), EventView::CommitDone) => LoopView {
            phase: PhaseView::Halted,
            rendered: Some(text),
            ..s
        },
        (PhaseView::Failing(_), EventView::CommitFailed) => LoopView { phase: PhaseView::Halted, ..s },
        _ => s,
    }
}

/// The action that a state waits for.
pub open spec fn awaited_action(s: LoopView) -> Action {
    match s.phase {
        PhaseView::AcquiringLink => Action::AcquireLink,
        PhaseView::Fetching => Action::FetchStatus,
        PhaseView::Rendering(_) => Action::Render,
        PhaseView::Idle => Action::Sleep(s.tick_seconds),
        PhaseView::Failing(_) => Action::Render,
        PhaseView::Halted => Action::Halt,
    }
}

/// The text that the driver is to render, where the state waits for that.
pub open spec fn frame_text(s: LoopView) -> Option<Seq<char>> {
    match s.phase {
        PhaseView::Rendering(text) => Some(text),
        PhaseView::Failing(text) => Some(text),
        _ => None,
    }
}

/// The control loop: where it stands, what the panel shows, and the link.
#[derive(Debug)]
pub struct ControlLoop {
    phase: Phase,
    rendered: RenderedState,
    link: Option<LinkHandle>,
    tick_seconds: u64,
}

impl View for ControlLoop {
    type V = LoopView;

    closed spec fn view(&self) -> LoopView {
        LoopView {
            phase: self.phase@,
            rendered: self.rendered@,
            link_held: self.link is Some,
            tick_seconds: self.tick_seconds,
        }
    }
}

impl ControlLoop {
    #[verifier::type_invariant]
    spec fn valid(self) -> bool {
        well_formed(self@)
    }

    /// A loop at its start, which will sleep `tick_seconds` between two ticks.
    pub fn new(tick_seconds: u64) -> (m: ControlLoop)
        ensures
            m@ == initial(tick_seconds),
            well_formed(m@),
    {
        ControlLoop {
            phase: Phase::AcquiringLink,
            rendered: RenderedState::Nothing,
            link: None,
            tick_seconds,
        }
    }

    /// The action that the loop waits for.
    pub fn awaited(&self) -> (action: Action)
        ensures
            action == awaited_action(self@),
    {
        match &self.phase {
            Phase::AcquiringLink => Action::AcquireLink,
            Phase::Fetching => Action::FetchStatus,
            Phase::Rendering(_) => Action::Render,
            Phase::Idle => Action::Sleep(self.tick_seconds),
            Phase::Failing(_) => Action::Render,
            Phase::Halted => Action::Halt,
        }
    }

    /// Where the loop stands.
    pub fn phase(&self) -> (phase: &Phase)
        ensures
            phase@ == self@.phase,
    {
        &self.phase
    }

    /// The text to render, where the loop waits for a render.
    pub fn frame(&self) -> (text: Option<&StatusText>)
        ensures
            text is Some <==> frame_text(self@) is Some,
            text matches Some(t) ==> frame_text(self@) == Some(t@),
    {
        match &self.phase {
            Phase::Rendering(text) => Some(text),
            Phase::Failing(text) => Some(text),
            _ => None,
        }
    }

    /// What the panel shows.
    pub fn rendered(&self) -> (shown: &RenderedState)
        ensures
            shown@ == self@.rendered,
    {
        &self.rendered
    }

    /// The link, once it was acquired.
    pub fn link(&self) -> (link: Option<&LinkHandle>)
        ensures
            link is Some <==> self@.link_held,
            link is Some <==> polling(self@.phase),
    {
        proof {
            use_type_invariant(self);
        }
        self.link.as_ref()
    }

    /// Whether the loop has halted.
    pub fn is_halted(&self) -> (halted: bool)
        ensures
            halted == (self@.phase is Halted),
    {
        match &self.phase {
            Phase::Halted => true,
            _ => false,
        }
    }

    /// Takes `event` in and says what to do next.
    ///
    /// The new state is `transition` of the old one; it is well formed, and
    /// the action is the one that it waits for.
    pub fn step(self, event: Event) -> (r: (ControlLoop, Action))
        ensures
            r.0@ == transition(self@, event@),
            well_formed(r.0@),
            r.1 == awaited_action(r.0@),
    {
        proof {
            use_type_invariant(&self);
        }
        let ControlLoop { phase, rendered, link, tick_seconds } = self;
        let next = match (phase, event) {
            (Phase::AcquiringLink, Event::LinkAcquired) => ControlLoop {
                phase: Phase::Fetching,
                rendered,
                link: Some(LinkHandle { token: () }),
                tick_seconds,
            },
            (Phase::AcquiringLink, Event::Outcome(FetchOutcome::FatalLinkError(cause))) => {
                let report = format_error("Failed to connect to network", cause.as_str());
                ControlLoop { phase: Phase::Failing(report), rendered, link, tick_seconds }
            },
            (Phase::Fetching, Event::Outcome(outcome)) => {
                let text = candidate_text(&outcome);
                if rendered.shows(&text) {
                    ControlLoop { phase: Phase::Idle, rendered, link, tick_seconds }
                } else {
                    ControlLoop { phase: Phase::Rendering(text), rendered, link, tick_seconds }
                }
            },
            (Phase::Rendering(text), Event::CommitDone) => ControlLoop {
                phase: Phase::Idle,
                rendered: RenderedState::Shown(text),
                link,
                tick_seconds,
            },
            (Phase::Rendering(_), Event::CommitFailed) => ControlLoop {
                phase: Phase::Idle,
                rendered,
                link,
                tick_seconds,
            },
            (Phase::Idle, Event::TickElapsed) => ControlLoop {
                phase: Phase::Fetching,
                rendered,
                link,
                tick_seconds,
            },
            (Phase::Failing(text), Event::CommitDone) => ControlLoop {
                phase: Phase::Halted,
                rendered: RenderedState::Shown(text),
                link,
                tick_seconds,
            },
            (Phase::Failing(_), Event::CommitFailed) => ControlLoop {
                phase: Phase::Halted,
                rendered,
                link,
                tick_seconds,
            },
            (phase, _) => ControlLoop { phase, rendered, link, tick_seconds },
        };
        let action = next.awaited();
        (next, action)
    }
}

} // verus!
