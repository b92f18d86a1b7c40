//! What holds of whole runs of the control loop: of every sequence of events,
//! and of every sequence of ticks.

use crate::bounded::MAX_TEXT_BYTES;
use crate::control::{
    awaited_action, candidate, frame_text, initial, link_failure_text, polling, transition,
    well_formed, Action, EventView, LoopView, OutcomeView, PhaseView,
};
use crate::report::{error_line, error_text};
use crate::text::{
    byte_len, is_trimmed, lemma_ascii_byte_len, lemma_trimmed_is_prefix, lemma_truncated_fits,
    trimmed, truncated,
};
use vstd::prelude::*;

verus! {

/// The state after all of `events`, taken in order from state `s`.
pub open spec fn run(s: LoopView, events: Seq<EventView>) -> LoopView
    decreases events.len(),
{
    if events.len() == 0 {
        s
    } else {
        transition(run(s, events.drop_last()), events.last())
    }
}

/// The text that the panel takes over when event `e` arrives in state `s`.
pub open spec fn committed_by(s: LoopView, e: EventView) -> Option<Seq<char>> {
    match (s.phase, e) {
        (PhaseView::Rendering(text), EventView::CommitDone) => Some(text),
        (PhaseView::Failing(text), EventView::CommitDone) => Some(text),
        _ => None,
    }
}

/// The texts that the panel took over during `events`, in order.
pub open spec fn commit_log(s: LoopView, events: Seq<EventView>) -> Seq<Seq<char>>
    decreases events.len(),
{
    if events.len() == 0 {
        Seq::empty()
    } else {
        let log = commit_log(s, events.drop_last());
        match committed_by(run(s, events.drop_last()), events.last()) {
            Some(text) => log.push(text),
            None => log,
        }
    }
}

/// Whether no entry of `log` equals the one before it, the first being held
/// against `shown`.
pub open spec fn no_repeat(shown: Option<Seq<char>>, log: Seq<Seq<char>>) -> bool {
    &&& log.len() > 0 ==> shown != Some(log[0])
    &&& forall|i: int| 0 < i < log.len() ==> log[i - 1] != #[trigger] log[i]
}

/// The candidate text of an outcome fits a status text and does not end in
/// white space.
pub proof fn lemma_candidate_fits(outcome: OutcomeView)
    ensures
        is_trimmed(candidate(outcome)),
        byte_len(candidate(outcome)) <= MAX_TEXT_BYTES,
{
    match outcome {
        OutcomeView::Success(text) => {
            lemma_truncated_fits(text, MAX_TEXT_BYTES as nat);
            lemma_trimmed_is_prefix(truncated(text, MAX_TEXT_BYTES as nat));
        },
        OutcomeView::RecoverableError(cause) => {
            lemma_truncated_fits(error_line("Err"@, cause), MAX_TEXT_BYTES as nat);
            lemma_trimmed_is_prefix(error_text("Err"@, cause));
        },
        OutcomeView::FatalLinkError(cause) => {
            lemma_truncated_fits(error_line("Err"@, cause), MAX_TEXT_BYTES as nat);
            lemma_trimmed_is_prefix(error_text("Err"@, cause));
        },
    }
}

/// What is shown for a failed fetch is the line `Err: <cause>`, first cut to
/// the panel's width and then stripped of the white space that the cut left
/// at its end: a beginning of the line, made of whole characters, and the
/// longest one that fits unless it would end in white space.
pub proof fn lemma_failure_is_cut_then_trimmed(cause: Seq<char>)
    ensures
        ({
            let line = error_line("Err"@, cause);
            let shown = candidate(OutcomeView::RecoverableError(cause));
            &&& shown == trimmed(truncated(line, MAX_TEXT_BYTES as nat))
            &&& shown.len() <= line.len()
            &&& shown == line.take(shown.len() as int)
            &&& byte_len(shown) <= MAX_TEXT_BYTES
            &&& is_trimmed(shown)
            &&& is_trimmed(truncated(line, MAX_TEXT_BYTES as nat)) ==> shown == truncated(
                line,
                MAX_TEXT_BYTES as nat,
            )
            &&& byte_len(line) <= MAX_TEXT_BYTES && is_trimmed(line) ==> shown == line
        }),
{
    let line = error_line("Err"@, cause);
    let cut = truncated(line, MAX_TEXT_BYTES as nat);
    lemma_truncated_fits(line, MAX_TEXT_BYTES as nat);
    lemma_trimmed_is_prefix(cut);
    let n = trimmed(cut).len() as int;
    assert(cut.take(n) =~= line.take(n));
}

/// A fetch that was given up for taking too long is shown as `Err: timeout`.
pub proof fn lemma_timeout_is_shown()
    ensures
        candidate(OutcomeView::RecoverableError("timeout"@)) == "Err: timeout"@,
{
    reveal_strlit("Err");
    reveal_strlit("timeout");
    reveal_strlit("Err: timeout");
    let line = error_line("Err"@, "timeout"@);
    assert(line =~= "Err: timeout"@);
    lemma_ascii_byte_len(line);
    lemma_truncated_fits(line, MAX_TEXT_BYTES as nat);
}

/// A step leads from a well-formed state to a well-formed state.
pub proof fn lemma_step_keeps_well_formed(s: LoopView, e: EventView)
    requires
        well_formed(s),
    ensures
        well_formed(transition(s, e)),
{
    match (s.phase, e) {
        (PhaseView::AcquiringLink, EventView::Outcome(OutcomeView::FatalLinkError(cause))) => {
            lemma_truncated_fits(
                error_line("Failed to connect to network"@, cause),
                MAX_TEXT_BYTES as nat,
            );
        },
        (PhaseView::Fetching, EventView::Outcome(outcome)) => {
            lemma_candidate_fits(outcome);
        },
        _ => {},
    }
}

/// Every run from a well-formed state ends in a well-formed state.
pub proof fn lemma_run_keeps_well_formed(s: LoopView, events: Seq<EventView>)
    requires
        well_formed(s),
    ensures
        well_formed(run(s, events)),
    decreases events.len(),
{
    if events.len() > 0 {
        lemma_run_keeps_well_formed(s, events.drop_last());
        lemma_step_keeps_well_formed(run(s, events.drop_last()), events.last());
    }
}

/// The halt is final: whatever is reported to a halted loop, it stays as it
/// is, and the only thing it asks for is the halt.
pub proof fn lemma_halt_is_final(s: LoopView, events: Seq<EventView>)
    requires
        s.phase is Halted,
    ensures
        run(s, events) == s,
        awaited_action(run(s, events)) == Action::Halt,
    decreases events.len(),
{
    if events.len() > 0 {
        lemma_halt_is_final(s, events.drop_last());
    }
}

/// The loop never ends a run with nothing to do: it has halted exactly where
/// the action it waits for is the halt.
pub proof fn lemma_only_halt_ends_the_loop(s: LoopView)
    ensures
        awaited_action(s) == Action::Halt <==> s.phase is Halted,
{
}

/// The link is acquired once: a loop that has left the phase in which it
/// waits for the link never comes back to it, and never asks for the link
/// again.
pub proof fn lemma_link_acquired_once(s: LoopView, events: Seq<EventView>)
    requires
        !(s.phase is AcquiringLink),
    ensures
        !(run(s, events).phase is AcquiringLink),
        awaited_action(run(s, events)) != Action::AcquireLink,
    decreases events.len(),
{
    if events.len() > 0 {
        lemma_link_acquired_once(s, events.drop_last());
    }
}

/// What the panel shows changes only when the panel has taken a frame: the
/// event is then the end of a commit, and the new text is the frame that the
/// loop asked to render.
pub proof fn lemma_rendered_changes_on_commit_only(s: LoopView, e: EventView)
    ensures
        transition(s, e).rendered != s.rendered ==> e is CommitDone && frame_text(s) is Some
            && transition(s, e).rendered == frame_text(s),
        !(e is CommitDone) ==> transition(s, e).rendered == s.rendered,
{
}

/// A fetch starts only when the link has just been acquired or a sleep has
/// just ended: two fetches never overlap, and between one and the next lie the
/// render, if there is one, and the sleep.
pub proof fn lemma_fetch_starts_after_sleep(s: LoopView, e: EventView)
    requires
        !(s.phase is Fetching),
        transition(s, e).phase is Fetching,
    ensures
        (s.phase is Idle && e is TickElapsed) || (s.phase is AcquiringLink && e is LinkAcquired),
{
}

/// The loop asks for a render only of a text that the panel does not show.
pub proof fn lemma_render_only_on_change(s: LoopView)
    requires
        well_formed(s),
        awaited_action(s) == Action::Render,
    ensures
        frame_text(s) is Some,
        frame_text(s) != s.rendered,
{
}

/// Once the loop polls, it polls for ever: whatever the fetches and the panel
/// report, it keeps the link and reaches neither the halt nor the way to it.
/// The panel's text and the phase are all that change.
pub proof fn lemma_polling_never_halts(s: LoopView, events: Seq<EventView>)
    requires
        polling(s.phase),
    ensures
        polling(run(s, events).phase),
        run(s, events).link_held == s.link_held,
        run(s, events).tick_seconds == s.tick_seconds,
        awaited_action(run(s, events)) != Action::Halt,
    decreases events.len(),
{
    if events.len() > 0 {
        lemma_polling_never_halts(s, events.drop_last());
    }
}

/// A fetch that fails is shown and leaves the loop polling: from the fetching
/// phase every outcome leads to a render or straight to the sleep, and after
/// the render to the sleep, whether the panel took the frame or not.
pub proof fn lemma_fetch_failure_returns_to_idle(s: LoopView, outcome: OutcomeView)
    requires
        s.phase is Fetching,
    ensures
        ({
            let fetched = transition(s, EventView::Outcome(outcome));
            &&& fetched.phase is Idle <==> s.rendered == Some(candidate(outcome))
            &&& fetched.phase is Rendering <==> s.rendered != Some(candidate(outcome))
            &&& fetched.phase is Rendering ==> frame_text(fetched) == Some(candidate(outcome))
            &&& fetched.phase is Rendering ==> transition(fetched, EventView::CommitDone).phase is Idle
            &&& fetched.phase is Rendering ==> transition(fetched, EventView::CommitFailed).phase is Idle
        }),
{
}

/// A link that cannot be acquired is reported and ends in the halt, and the
/// loop never polls: from the start, the failure leads to the report of it,
/// every later run stays out of the polling phases, and the first answer of
/// the panel, whichever it is, halts the loop.
pub proof fn lemma_link_failure_halts(
    tick_seconds: u64,
    cause: Seq<char>,
    events: Seq<EventView>,
)
    ensures
        ({
            let failed = transition(
                initial(tick_seconds),
                EventView::Outcome(OutcomeView::FatalLinkError(cause)),
            );
            &&& failed.phase == PhaseView::Failing(link_failure_text(cause))
            &&& awaited_action(failed) == Action::Render
            &&& transition(failed, EventView::CommitDone).phase is Halted
            &&& transition(failed, EventView::CommitFailed).phase is Halted
            &&& !polling(run(failed, events).phase)
            &&& !run(failed, events).link_held
            &&& run(failed, events).phase is Failing || run(failed, events).phase is Halted
            &&& (exists|i: int|
                0 <= i < events.len() && (events[i] is CommitDone || events[i] is CommitFailed))
                ==> run(failed, events).phase is Halted
        }),
    decreases events.len(),
{
    let failed = transition(
        initial(tick_seconds),
        EventView::Outcome(OutcomeView::FatalLinkError(cause)),
    );
    if events.len() > 0 {
        let before = events.drop_last();
        lemma_link_failure_halts(tick_seconds, cause, before);
        if exists|i: int|
            0 <= i < events.len() && (events[i] is CommitDone || events[i] is CommitFailed) {
            let i = choose|i: int|
                0 <= i < events.len() && (events[i] is CommitDone || events[i] is CommitFailed);
            if i < before.len() {
                assert(before[i] == events[i]);
            }
        }
    }
}

/// The panel never takes the same text twice in a row: in every run from a
/// well-formed state, no committed text equals the one committed before it,
/// nor the first one the text that the panel showed at the start. What the
/// panel shows at the end is the last text committed.
pub proof fn lemma_no_redundant_commit(s: LoopView, events: Seq<EventView>)
    requires
        well_formed(s),
    ensures
        no_repeat(s.rendered, commit_log(s, events)),
        run(s, events).rendered == if commit_log(s, events).len() > 0 {
            Some(commit_log(s, events).last())
        } else {
            s.rendered
        },
    decreases events.len(),
{
    if events.len() > 0 {
        let before = events.drop_last();
        lemma_no_redundant_commit(s, before);
        lemma_run_keeps_well_formed(s, before);
    }
}

/// One tick from the fetching phase, driven as the loop asks: the fetch ends
/// with `outcome`; if the loop then asks for a render, the panel takes it; the
/// sleep passes.
pub open spec fn poll(s: LoopView, outcome: OutcomeView) -> LoopView {
    let fetched = transition(s, EventView::Outcome(outcome));
    let settled = if awaited_action(fetched) == Action::Render {
        transition(fetched, EventView::CommitDone)
    } else {
        fetched
    };
    transition(settled, EventView::TickElapsed)
}

/// Whether the tick that starts in `s` and fetches `outcome` redraws the panel.
pub open spec fn renders(s: LoopView, outcome: OutcomeView) -> bool {
    awaited_action(transition(s, EventView::Outcome(outcome))) == Action::Render
}

/// The state after one tick for each of `outcomes`, in order.
pub open spec fn poll_all(s: LoopView, outcomes: Seq<OutcomeView>) -> LoopView
    decreases outcomes.len(),
{
    if outcomes.len() == 0 {
        s
    } else {
        poll(poll_all(s, outcomes.drop_last()), outcomes.last())
    }
}

/// The texts drawn during one tick for each of `outcomes`, in order.
pub open spec fn render_log(s: LoopView, outcomes: Seq<OutcomeView>) -> Seq<Seq<char>>
    decreases outcomes.len(),
{
    if outcomes.len() == 0 {
        Seq::empty()
    } else {
        let log = render_log(s, outcomes.drop_last());
        if renders(poll_all(s, outcomes.drop_last()), outcomes.last()) {
            log.push(candidate(outcomes.last()))
        } else {
            log
        }
    }
}

/// The entries of `texts` that differ from the one before them, the first
/// being held against `shown`.
pub open spec fn changes(shown: Option<Seq<char>>, texts: Seq<Seq<char>>) -> Seq<Seq<char>>
    decreases texts.len(),
{
    if texts.len() == 0 {
        Seq::empty()
    } else {
        let earlier = texts.drop_last();
        let before = if earlier.len() == 0 {
            shown
        } else {
            Some(earlier.last())
        };
        if before == Some(texts.last()) {
            changes(shown, earlier)
        } else {
            changes(shown, earlier).push(texts.last())
        }
    }
}

/// The candidate texts of `outcomes`, in order.
pub open spec fn candidates(outcomes: Seq<OutcomeView>) -> Seq<Seq<char>> {
    Seq::new(outcomes.len(), |i: int| candidate(outcomes[i]))
}

/// A tick from the fetching phase ends in the fetching phase, with the panel
/// showing the candidate text of the fetch; the panel was redrawn exactly if
/// it showed something else before.
pub proof fn lemma_tick_shows_candidate(s: LoopView, outcome: OutcomeView)
    requires
        s.phase is Fetching,
    ensures
        poll(s, outcome).phase is Fetching,
        poll(s, outcome).rendered == Some(candidate(outcome)),
        poll(s, outcome).link_held == s.link_held,
        poll(s, outcome).tick_seconds == s.tick_seconds,
        renders(s, outcome) <==> s.rendered != Some(candidate(outcome)),
{
}

/// The panel is redrawn exactly when the text changes: the texts drawn over
/// any sequence of ticks are the candidate texts that differ from the one
/// before them, the first being held against what the panel showed at the
/// start. No two texts drawn in a row are equal, and after the last tick the
/// panel shows the last candidate.
pub proof fn lemma_renders_follow_changes(s: LoopView, outcomes: Seq<OutcomeView>)
    requires
        s.phase is Fetching,
    ensures
        poll_all(s, outcomes).phase is Fetching,
        poll_all(s, outcomes).rendered == if outcomes.len() == 0 {
            s.rendered
        } else {
            Some(candidate(outcomes.last()))
        },
        render_log(s, outcomes) == changes(s.rendered, candidates(outcomes)),
        render_log(s, outcomes).len() <= outcomes.len(),
        no_repeat(s.rendered, render_log(s, outcomes)),
        poll_all(s, outcomes).rendered == if render_log(s, outcomes).len() == 0 {
            s.rendered
        } else {
            Some(render_log(s, outcomes).last())
        },
    decreases outcomes.len(),
{
    if outcomes.len() > 0 {
        let before = outcomes.drop_last();
        lemma_renders_follow_changes(s, before);
        lemma_tick_shows_candidate(poll_all(s, before), outcomes.last());
        assert(candidates(outcomes).drop_last() =~= candidates(before));
        assert(candidates(outcomes).last() == candidate(outcomes.last()));
        if before.len() > 0 {
            assert(candidates(before).last() == candidate(before.last()));
        }
        let earlier = render_log(s, before);
        let log = render_log(s, outcomes);
        assert forall|i: int| 0 < i < log.len() implies log[i - 1] != #[trigger] log[i] by {
            if i < earlier.len() {
                assert(earlier[i - 1] != earlier[i]);
            }
        }
    }
}

/// Over ticks whose candidate texts are all equal, the panel is redrawn at
/// most once, and not at all if it showed that text before.
pub proof fn lemma_equal_run_renders_at_most_once(s: LoopView, outcomes: Seq<OutcomeView>)
    requires
        s.phase is Fetching,
        forall|i: int, j: int|
            0 <= i < outcomes.len() && 0 <= j < outcomes.len() ==> candidate(outcomes[i])
                == candidate(outcomes[j]),
    ensures
        render_log(s, outcomes).len() <= 1,
        outcomes.len() > 0 && s.rendered == Some(candidate(outcomes[0])) ==> render_log(
            s,
            outcomes,
        ).len() == 0,
        outcomes.len() > 0 && s.rendered != Some(candidate(outcomes[0])) ==> render_log(
            s,
            outcomes,
        ) == seq![candidate(outcomes[0])],
    decreases outcomes.len(),
{
    if outcomes.len() > 0 {
        let before = outcomes.drop_last();
        assert forall|i: int, j: int|
            0 <= i < before.len() && 0 <= j < before.len() implies candidate(before[i])
            == candidate(before[j]) by {
            assert(before[i] == outcomes[i]);
            assert(before[j] == outcomes[j]);
        }
        lemma_equal_run_renders_at_most_once(s, before);
        lemma_renders_follow_changes(s, before);
        lemma_tick_shows_candidate(poll_all(s, before), outcomes.last());
        if before.len() > 0 {
            assert(before[0] == outcomes[0]);
            assert(before.last() == outcomes[before.len() - 1]);
        }
    }
}

/// While nothing was rendered yet, the first text fetched is drawn, whatever
/// it is: the empty text too.
pub proof fn lemma_first_text_is_rendered(s: LoopView, outcome: OutcomeView)
    requires
        s.phase is Fetching,
        s.rendered is None,
    ensures
        renders(s, outcome),
        frame_text(transition(s, EventView::Outcome(outcome))) == Some(candidate(outcome)),
        render_log(s, seq![outcome]) == seq![candidate(outcome)],
        poll(s, outcome).rendered == Some(candidate(outcome)),
{
    assert(seq![outcome].drop_last() =~= Seq::<OutcomeView>::empty());
    assert(seq![outcome].last() == outcome);
    assert(render_log(s, seq![outcome].drop_last()) == Seq::<Seq<char>>::empty());
    assert(Seq::<Seq<char>>::empty().push(candidate(outcome)) =~= seq![candidate(outcome)]);
}

/// At the start nothing is rendered, and it stays so until the first commit:
/// the loop that has just acquired its link draws the first text it fetches.
pub proof fn lemma_start_renders_first_text(tick_seconds: u64, outcome: OutcomeView)
    ensures
        initial(tick_seconds).rendered is None,
        well_formed(initial(tick_seconds)),
        awaited_action(initial(tick_seconds)) == Action::AcquireLink,
        transition(initial(tick_seconds), EventView::LinkAcquired).phase is Fetching,
        renders(transition(initial(tick_seconds), EventView::LinkAcquired), outcome),
{
    lemma_first_text_is_rendered(
        transition(initial(tick_seconds), EventView::LinkAcquired),
        outcome,
    );
}

} // verus!
