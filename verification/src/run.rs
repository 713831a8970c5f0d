//! Runs of the monitoring loop: what holds of the loop over any sequence of
//! outcomes and subscription requests that it may be handed.

use crate::dedup::RECOVERY_MESSAGE;
use crate::monitor::{
    dispatching, expected, lemma_step_lines, next, ActionView, Event, MonitorView, Phase,
    TICK_SECONDS,
};
use crate::registry::{
    lemma_occurrences, lemma_unanswered_unregistered, occurrences, registered, Subscriber,
};
use crate::status::{
    bad_status_text, http_lines, joined, lemma_bad_status_same_kind, lemma_http_lines_nonempty,
    lemma_joined_empty, HttpOutcome, HTTP_OK,
};
use vstd::prelude::*;

verus! {

/// What the loop can be handed: the outcome of the work it asked for, or a
/// subscription request.
pub enum Input {
    /// An event, as given to `MonitorLoop::step`.
    Outcome(Event),
    /// A request, as given to `MonitorLoop::enqueue_request`.
    Request { identity: u64 },
}

/// The state after `input`, and the action that the loop asks for, if any. A
/// request asks for none, and so does an event that is refused.
pub open spec fn accept(s: MonitorView, input: Input) -> (MonitorView, Option<ActionView>) {
    match input {
        Input::Request { identity } => (
            MonitorView { pending: s.pending.push(identity), ..s },
            None,
        ),
        Input::Outcome(event) => if expected(s.phase, event) {
            (next(s, event).0, Some(next(s, event).1))
        } else {
            (s, None)
        },
    }
}

/// The state after all of `inputs`, in their order, from the state `s`.
pub open spec fn run(s: MonitorView, inputs: Seq<Input>) -> MonitorView
    decreases inputs.len(),
{
    if inputs.len() == 0 {
        s
    } else {
        accept(run(s, inputs.drop_last()), inputs.last()).0
    }
}

/// The actions that the loop asks for in the course of `inputs`, in their
/// order, from the state `s`.
pub open spec fn trace(s: MonitorView, inputs: Seq<Input>) -> Seq<ActionView>
    decreases inputs.len(),
{
    if inputs.len() == 0 {
        seq![]
    } else {
        let before = trace(s, inputs.drop_last());
        match accept(run(s, inputs.drop_last()), inputs.last()).1 {
            Some(action) => before.push(action),
            None => before,
        }
    }
}

/// How many of `actions` greet `identity`.
pub open spec fn greetings(actions: Seq<ActionView>, identity: u64) -> nat
    decreases actions.len(),
{
    if actions.len() == 0 {
        0
    } else {
        greetings(actions.drop_last(), identity) + match actions.last() {
            ActionView::Greet { identity: greeted, .. } => if greeted == identity {
                1nat
            } else {
                0nat
            },
            _ => 0nat,
        }
    }
}

/// The outcomes of sending, one event for each of `results`.
pub open spec fn sent(results: Seq<bool>) -> Seq<Input> {
    Seq::new(results.len(), |i: int| Input::Outcome(Event::Sent { delivered: results[i] }))
}

/// What one input does to the roster: the invariant of the loop is kept, and
/// either the roster is unchanged and nobody is greeted, or one identity that
/// was not on it is added at its end and greeted.
pub proof fn lemma_accept(s: MonitorView, input: Input)
    requires
        s.wf(),
    ensures
        accept(s, input).0.wf(),
        match accept(s, input).1 {
            Some(ActionView::Greet { identity, channel, text }) => {
                &&& !registered(s.subscribers, identity)
                &&& accept(s, input).0.subscribers == s.subscribers.push(
                    Subscriber { identity, channel },
                )
            },
            _ => accept(s, input).0.subscribers == s.subscribers,
        },
        accept(s, input).1 matches Some(ActionView::OpenChannel { identity }) ==> !registered(
            s.subscribers,
            identity,
        ),
{
    lemma_unanswered_unregistered(s.subscribers, s.pending);
    match input {
        Input::Request { identity } => {},
        Input::Outcome(event) => {
            if expected(s.phase, event) {
                lemma_step_lines(s, event);
                match event {
                    Event::ChannelOpened { channel } => {
                        let grown = next(s, event).0.subscribers;
                        assert forall|i: int, j: int| 0 <= i < j < grown.len() implies #[trigger] grown[i]
                            .identity != #[trigger] grown[j].identity by {
                            assert(grown[i] == s.subscribers[i]);
                            if j < s.subscribers.len() {
                                assert(grown[j] == s.subscribers[j]);
                            }
                        }
                    },
                    _ => {},
                }
            }
        },
    }
}

/// The invariant of the loop holds after every run.
pub proof fn lemma_run_wf(s: MonitorView, inputs: Seq<Input>)
    requires
        s.wf(),
    ensures
        run(s, inputs).wf(),
    decreases inputs.len(),
{
    if inputs.len() > 0 {
        lemma_run_wf(s, inputs.drop_last());
        lemma_accept(run(s, inputs.drop_last()), inputs.last());
    }
}

/// Registration is idempotent over every run: however often an identity asks
/// to subscribe, it is on the roster at most once, and it was greeted once
/// for the entry that the run added, and not at all otherwise.
pub proof fn lemma_one_entry_one_greeting(s: MonitorView, inputs: Seq<Input>, identity: u64)
    requires
        s.wf(),
    ensures
        occurrences(run(s, inputs).subscribers, identity) == occurrences(s.subscribers, identity)
            + greetings(trace(s, inputs), identity),
        occurrences(run(s, inputs).subscribers, identity) <= 1,
    decreases inputs.len(),
{
    if inputs.len() > 0 {
        let before = run(s, inputs.drop_last());
        let earlier = trace(s, inputs.drop_last());
        lemma_one_entry_one_greeting(s, inputs.drop_last(), identity);
        lemma_run_wf(s, inputs.drop_last());
        lemma_accept(before, inputs.last());
        match accept(before, inputs.last()).1 {
            Some(action) => {
                assert(earlier.push(action).drop_last() =~= earlier);
                match action {
                    ActionView::Greet { identity: greeted, channel, text } => {
                        let grown = before.subscribers.push(
                            Subscriber { identity: greeted, channel },
                        );
                        assert(grown.drop_last() =~= before.subscribers);
                    },
                    _ => {},
                }
            },
            None => {},
        }
    }
    lemma_run_wf(s, inputs);
    lemma_occurrences(run(s, inputs).subscribers, identity);
}

/// A failed send stops nothing: while dispatching, the loop goes on in the
/// same way whether the last message was delivered or not.
pub proof fn lemma_dispatch_isolated(s: MonitorView, one: bool, other: bool)
    requires
        s.phase == Phase::Dispatching,
    ensures
        next(s, Event::Sent { delivered: one }) == next(s, Event::Sent { delivered: other }),
{
}

/// A broadcast reaches every subscriber: from the moment the announcement
/// went out to the subscriber at the cursor, each outcome of a send, delivered
/// or not, is followed by the send to the next subscriber on the roster, with
/// the same text, and the outcome of the last send by the pause.
pub proof fn lemma_broadcast_reaches_all(s: MonitorView, results: Seq<bool>)
    requires
        s.wf(),
        s.phase == Phase::Dispatching,
        s.cursor + results.len() <= s.subscribers.len(),
    ensures
        run(s, sent(results)) == dispatching(
            MonitorView { cursor: s.cursor + results.len(), ..s },
        ).0,
        trace(s, sent(results)).len() == results.len(),
        forall|k: int|
            0 <= k < results.len() ==> #[trigger] trace(s, sent(results))[k] == if s.cursor + k + 1
                < s.subscribers.len() {
                ActionView::Send {
                    channel: s.subscribers[s.cursor + k + 1].channel,
                    text: s.outgoing->0,
                }
            } else {
                ActionView::Sleep { seconds: TICK_SECONDS }
            },
    decreases results.len(),
{
    let inputs = sent(results);
    if results.len() == 0 {
        assert(run(s, inputs) == s);
        assert((MonitorView { cursor: s.cursor + results.len(), ..s }) == s);
    } else {
        let shorter = results.drop_last();
        lemma_broadcast_reaches_all(s, shorter);
        assert(inputs.drop_last() =~= sent(shorter));
        let before = run(s, sent(shorter));
        let event = Event::Sent { delivered: results.last() };
        assert(inputs.last() == Input::Outcome(event));
        assert(before.phase == Phase::Dispatching);
        assert(before.cursor == s.cursor + shorter.len());
        let after = next(before, event);
        assert(after == dispatching(MonitorView { cursor: s.cursor + results.len(), ..s }));
        assert(trace(s, inputs) == trace(s, sent(shorter)).push(after.1));
    }
}

/// A healthy tick is silent: when the probes found nothing, the HTTP request
/// is answered with status 200 and the tick before was healthy too, nothing
/// is announced, nothing is sent, and the remembered text stays empty.
pub proof fn lemma_healthy_tick_silent(s: MonitorView)
    requires
        s.wf(),
        s.phase == Phase::ProbingHttp,
        s.status.len() == 0,
        s.previous.len() == 0,
    ensures
        ({
            let (t, action) = next(s, Event::Http { response: HttpOutcome::StatusCode(HTTP_OK) });
            &&& t.status.len() == 0
            &&& t.outgoing is None
            &&& t.previous.len() == 0
            &&& !(action is Send)
        }),
{
    let response = HttpOutcome::StatusCode(HTTP_OK);
    assert(s.status + http_lines(response) =~= s.status);
}

/// The first healthy tick after a failure announces the recovery and forgets
/// the failure.
pub proof fn lemma_recovery_tick(s: MonitorView)
    requires
        s.wf(),
        s.phase == Phase::ProbingHttp,
        s.status.len() == 0,
        s.previous.len() > 0,
    ensures
        ({
            let (t, action) = next(s, Event::Http { response: HttpOutcome::StatusCode(HTTP_OK) });
            &&& t.outgoing == Some(RECOVERY_MESSAGE@)
            &&& t.previous.len() == 0
        }),
{
    let response = HttpOutcome::StatusCode(HTTP_OK);
    assert(s.status + http_lines(response) =~= s.status);
}

/// A tick that found something always remembers a non-empty text, so the
/// recovery is announced only after a failure.
pub proof fn lemma_failure_remembered(s: MonitorView, response: HttpOutcome)
    requires
        s.wf(),
        s.phase == Phase::ProbingHttp,
    ensures
        ({
            let (t, action) = next(s, Event::Http { response });
            t.previous.len() == 0 <==> t.status.len() == 0
        }),
{
    lemma_http_lines_nonempty(response);
    lemma_joined_empty(s.status + http_lines(response));
}

/// A bad HTTP status that persists is announced once: when nothing else was
/// found in this tick and the tick before remembered a bad status alone, a
/// bad status of whatever code is suppressed and remembered in its turn.
pub proof fn lemma_bad_status_persists(s: MonitorView, before: u32, now: u32)
    requires
        s.wf(),
        s.phase == Phase::ProbingHttp,
        s.status.len() == 0,
        s.previous == bad_status_text(before),
        now != HTTP_OK,
    ensures
        ({
            let (t, action) = next(s, Event::Http { response: HttpOutcome::StatusCode(now) });
            &&& t.outgoing is None
            &&& t.previous == bad_status_text(now)
            &&& !(action is Send)
        }),
{
    let response = HttpOutcome::StatusCode(now);
    let lines = s.status + http_lines(response);
    assert(lines =~= seq![bad_status_text(now)]);
    assert(joined(lines) == bad_status_text(now));
    lemma_bad_status_same_kind(now, before);
    lemma_http_lines_nonempty(response);
    lemma_joined_empty(lines);
}

} // verus!
