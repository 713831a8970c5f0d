//! The monitoring loop as a state machine. The caller performs each action
//! that the machine asks for (resolve, ping, look up the public address,
//! request over HTTP, open a channel, send, sleep) and hands the outcome back
//! as an event; the machine decides what follows.
//!
//! One tick runs through resolving, pinging, checking the address (only after
//! a reply), probing over HTTP, then deciding on an announcement, answering
//! the subscription requests, dispatching the announcement and sleeping. The
//! decision on the announcement needs no outside work, so it is taken in the
//! step that receives the HTTP outcome and is no phase of its own.

use crate::dedup::{decision, DedupState};
use crate::registry::{
    distinct, enrolled, greeting, greeting_text, registered, unanswered, Subscriber,
    SubscriberRegistry,
};
use crate::status::{
    all_nonempty, drift_lines, http_lines, joined, lemma_drift_lines_nonempty,
    lemma_http_lines_nonempty, lemma_probe_lines_nonempty, lemma_resolution_failed_nonempty,
    probe_lines, resolution_failed_text, texts, HttpOutcome, ProbeOutcome, StatusMessage,
};
use crate::text::optional_text;
use vstd::prelude::*;

verus! {

/// The pause between two ticks, in seconds.
pub const TICK_SECONDS: u64 = 10;

/// Where the loop stands: the outside work whose outcome it waits for.
#[derive(Clone, Copy, Debug, PartialEq, Eq, Structural)]
pub enum Phase {
    /// The host name is being resolved.
    Resolving,
    /// A ping round is under way.
    Pinging,
    /// The public address of the host is being looked up.
    CheckingAddress,
    /// The HTTP request is under way.
    ProbingHttp,
    /// A private channel is being opened for a new subscriber.
    Registering,
    /// The greeting is being sent to a new subscriber.
    Greeting,
    /// The announcement is being sent to one subscriber.
    Dispatching,
    /// The loop rests until the next tick.
    Sleeping,
}

/// The outcome of the outside work that the loop asked for.
#[derive(Debug, PartialEq, Eq)]
pub enum Event {
    /// The host name resolved to these addresses.
    Resolved { addresses: Vec<String> },
    /// The host name could not be resolved.
    ResolutionFailed { cause: String },
    /// No pinger could be set up for the resolved addresses.
    PingerFailed { cause: String },
    /// The ping round ended.
    Pinged { outcome: ProbeOutcome },
    /// The public address of the host, or `None` where it cannot be told.
    PublicAddress { address: Option<String> },
    /// The HTTP request ended.
    Http { response: HttpOutcome },
    /// The private channel was opened.
    ChannelOpened { channel: u64 },
    /// The private channel could not be opened.
    ChannelOpenFailed,
    /// A message was handed to a channel; `delivered` tells whether the
    /// channel took it.
    Sent { delivered: bool },
    /// The pause is over.
    Woke,
}

/// The outside work that the loop asks for next.
#[derive(Debug, PartialEq, Eq)]
pub enum Action {
    /// Resolve the host name.
    Resolve { host: String },
    /// Send one echo to each of these addresses and wait for one outcome.
    Ping { addresses: Vec<String> },
    /// Look up the public address of the host.
    QueryPublicAddress,
    /// Request the URL once.
    ProbeHttp { url: String },
    /// Open a private channel to this identity.
    OpenChannel { identity: u64 },
    /// Send the greeting to the channel of a new subscriber.
    Greet { identity: u64, channel: u64, text: String },
    /// Send the announcement to the channel of a subscriber.
    Send { channel: u64, text: String },
    /// Rest for this many seconds.
    Sleep { seconds: u64 },
}

/// An action with its texts as sequences of characters.
#[verifier::ext_equal]
pub enum ActionView {
    Resolve { host: Seq<char> },
    Ping { addresses: Seq<Seq<char>> },
    QueryPublicAddress,
    ProbeHttp { url: Seq<char> },
    OpenChannel { identity: u64 },
    Greet { identity: u64, channel: u64, text: Seq<char> },
    Send { channel: u64, text: Seq<char> },
    Sleep { seconds: u64 },
}

impl View for Action {
    type V = ActionView;

    open spec fn view(&self) -> ActionView {
        match *self {
            Action::Resolve { host } => ActionView::Resolve { host: host@ },
            Action::Ping { addresses } => ActionView::Ping { addresses: texts(addresses@) },
            Action::QueryPublicAddress => ActionView::QueryPublicAddress,
            Action::ProbeHttp { url } => ActionView::ProbeHttp { url: url@ },
            Action::OpenChannel { identity } => ActionView::OpenChannel { identity },
            Action::Greet { identity, channel, text } => ActionView::Greet {
                identity,
                channel,
                text: text@,
            },
            Action::Send { channel, text } => ActionView::Send { channel, text: text@ },
            Action::Sleep { seconds } => ActionView::Sleep { seconds },
        }
    }
}

/// Why a step was refused.
#[derive(Clone, Copy, Debug, PartialEq, Eq, Structural)]
pub enum MonitorError {
    /// The event is not an outcome of the work that the loop waits for in
    /// this phase.
    UnexpectedEvent { phase: Phase },
}

/// The state of the loop, as plain values.
#[verifier::ext_equal]
pub struct MonitorView {
    /// The name of the monitored host.
    pub host: Seq<char>,
    /// The URL that is probed over HTTP.
    pub url: Seq<char>,
    /// The phase.
    pub phase: Phase,
    /// The status lines found so far in this tick.
    pub status: Seq<Seq<char>>,
    /// The address that answered the ping of this tick.
    pub pinged: Seq<char>,
    /// The status text of the tick before, which the next is compared with.
    pub previous: Seq<char>,
    /// The roster.
    pub subscribers: Seq<Subscriber>,
    /// The subscription requests that wait.
    pub pending: Seq<u64>,
    /// The identity whose request is being answered.
    pub opening: u64,
    /// The announcement of this tick, if there is one.
    pub outgoing: Option<Seq<char>>,
    /// The position on the roster of the subscriber who is served next.
    pub cursor: nat,
}

impl MonitorView {
    /// The invariant of the loop: no status line is empty, no identity is on
    /// the roster twice, a channel is opened only for an identity that is not
    /// on the roster, and while dispatching there is an announcement and a
    /// subscriber to send it to.
    pub open spec fn wf(self) -> bool {
        &&& all_nonempty(self.status)
        &&& distinct(self.subscribers)
        &&& self.phase == Phase::Registering ==> !registered(self.subscribers, self.opening)
        &&& self.phase == Phase::Dispatching ==> self.outgoing is Some && self.cursor
            < self.subscribers.len()
    }
}

/// Whether `event` is an outcome of the work that the loop waits for in
/// `phase`.
pub open spec fn expected(phase: Phase, event: Event) -> bool {
    match phase {
        Phase::Resolving => event is Resolved || event is ResolutionFailed,
        Phase::Pinging => event is PingerFailed || event is Pinged,
        Phase::CheckingAddress => event is PublicAddress,
        Phase::ProbingHttp => event is Http,
        Phase::Registering => event is ChannelOpened || event is ChannelOpenFailed,
        Phase::Greeting => event is Sent,
        Phase::Dispatching => event is Sent,
        Phase::Sleeping => event is Woke,
    }
}

/// The loop goes on to the HTTP probe.
pub open spec fn probing(s: MonitorView) -> (MonitorView, ActionView) {
    (MonitorView { phase: Phase::ProbingHttp, ..s }, ActionView::ProbeHttp { url: s.url })
}

/// The loop serves the subscriber at the cursor, or goes to sleep when there
/// is no announcement or every subscriber was served.
pub open spec fn dispatching(s: MonitorView) -> (MonitorView, ActionView) {
    if s.outgoing is Some && s.cursor < s.subscribers.len() {
        (
            MonitorView { phase: Phase::Dispatching, ..s },
            ActionView::Send {
                channel: s.subscribers[s.cursor as int].channel,
                text: s.outgoing->0,
            },
        )
    } else {
        (MonitorView { phase: Phase::Sleeping, ..s }, ActionView::Sleep { seconds: TICK_SECONDS })
    }
}

/// The loop answers the next subscription request that calls for an answer,
/// or begins to dispatch when none is left.
pub open spec fn registering(s: MonitorView) -> (MonitorView, ActionView) {
    let rest = unanswered(s.subscribers, s.pending);
    if rest.len() == 0 {
        dispatching(MonitorView { pending: Seq::empty(), cursor: 0, ..s })
    } else {
        (
            MonitorView {
                phase: Phase::Registering,
                opening: rest[0],
                pending: rest.drop_first(),
                ..s
            },
            ActionView::OpenChannel { identity: rest[0] },
        )
    }
}

/// The probes of the tick are done: the status text is compared with the one
/// before and remembered, then the subscription requests are answered.
pub open spec fn concluding(s: MonitorView) -> (MonitorView, ActionView) {
    let text = joined(s.status);
    registering(MonitorView { previous: text, outgoing: decision(text, s.previous), ..s })
}

/// The state and the action that follow from the state `s` on `event`, for an
/// event that is expected in the phase of `s`.
pub open spec fn next(s: MonitorView, event: Event) -> (MonitorView, ActionView) {
    match event {
        Event::Resolved { addresses } => (
            MonitorView { phase: Phase::Pinging, ..s },
            ActionView::Ping { addresses: texts(addresses@) },
        ),
        Event::ResolutionFailed { cause } => probing(
            MonitorView { status: s.status.push(resolution_failed_text(s.host, cause@)), ..s },
        ),
        Event::PingerFailed { cause } => probing(
            MonitorView { status: s.status.push(resolution_failed_text(s.host, cause@)), ..s },
        ),
        Event::Pinged { outcome } => match outcome {
            ProbeOutcome::Received { address, .. } => (
                MonitorView { phase: Phase::CheckingAddress, pinged: address@, ..s },
                ActionView::QueryPublicAddress,
            ),
            _ => probing(MonitorView { status: s.status + probe_lines(outcome), ..s }),
        },
        Event::PublicAddress { address } => probing(
            MonitorView { status: s.status + drift_lines(s.pinged, optional_text(address)), ..s },
        ),
        Event::Http { response } => concluding(
            MonitorView { status: s.status + http_lines(response), ..s },
        ),
        Event::ChannelOpened { channel } => (
            MonitorView {
                phase: Phase::Greeting,
                subscribers: enrolled(s.subscribers, s.opening, channel),
                ..s
            },
            ActionView::Greet { identity: s.opening, channel, text: greeting_text(s.opening) },
        ),
        Event::ChannelOpenFailed => registering(s),
        Event::Sent { .. } => if s.phase == Phase::Greeting {
            registering(s)
        } else {
            dispatching(MonitorView { cursor: s.cursor + 1, ..s })
        },
        Event::Woke => (
            MonitorView { phase: Phase::Resolving, status: Seq::empty(), ..s },
            ActionView::Resolve { host: s.host },
        ),
    }
}

/// No step adds an empty line to the status message.
pub proof fn lemma_step_lines(s: MonitorView, event: Event)
    requires
        all_nonempty(s.status),
    ensures
        all_nonempty(next(s, event).0.status),
{
    match event {
        Event::ResolutionFailed { cause } => {
            lemma_resolution_failed_nonempty(s.host, cause@);
        },
        Event::PingerFailed { cause } => {
            lemma_resolution_failed_nonempty(s.host, cause@);
        },
        Event::Pinged { outcome } => {
            lemma_probe_lines_nonempty(outcome);
        },
        Event::PublicAddress { address } => {
            lemma_drift_lines_nonempty(s.pinged, optional_text(address));
        },
        Event::Http { response } => {
            lemma_http_lines_nonempty(response);
        },
        _ => {},
    }
}

/// The monitoring loop of one host.
pub struct MonitorLoop {
    host: String,
    url: String,
    phase: Phase,
    status: StatusMessage,
    pinged: String,
    dedup: DedupState,
    registry: SubscriberRegistry,
    opening: u64,
    outgoing: Option<String>,
    cursor: usize,
}

impl View for MonitorLoop {
    type V = MonitorView;

    closed spec fn view(&self) -> MonitorView {
        MonitorView {
            host: self.host@,
            url: self.url@,
            phase: self.phase,
            status: self.status@,
            pinged: self.pinged@,
            previous: self.dedup@,
            subscribers: self.registry@.subscribers,
            pending: self.registry@.pending,
            opening: self.opening,
            outgoing: optional_text(self.outgoing),
            cursor: self.cursor as nat,
        }
    }
}

impl MonitorLoop {
    /// The invariant of the loop, see [`MonitorView::wf`].
    pub open spec fn wf(&self) -> bool {
        self@.wf()
    }

    /// A loop for `host`, probed over HTTP at `url`: at the start of its
    /// first tick, with an empty roster and no text remembered. Its first
    /// action is [`MonitorLoop::first_action`].
    pub fn new(host: String, url: String) -> (monitor: MonitorLoop)
        ensures
            monitor.wf(),
            monitor@ == (MonitorView {
                host: host@,
                url: url@,
                phase: Phase::Resolving,
                status: Seq::empty(),
                pinged: Seq::empty(),
                previous: Seq::empty(),
                subscribers: Seq::empty(),
                pending: Seq::empty(),
                opening: 0,
                outgoing: None,
                cursor: 0,
            }),
    {
        MonitorLoop {
            host,
            url,
            phase: Phase::Resolving,
            status: StatusMessage::new(),
            pinged: String::new(),
            dedup: DedupState::new(),
            registry: SubscriberRegistry::new(),
            opening: 0,
            outgoing: None,
            cursor: 0,
        }
    }

    /// The action that starts the first tick: resolve the host name.
    pub fn first_action(&self) -> (action: Action)
        ensures
            action@ == (ActionView::Resolve { host: self@.host }),
    {
        Action::Resolve { host: self.host.clone() }
    }

    /// The phase.
    pub fn phase(&self) -> (phase: Phase)
        ensures
            phase == self@.phase,
    {
        self.phase
    }

    /// The name of the monitored host.
    pub fn host(&self) -> (host: &String)
        ensures
            host@ == self@.host,
    {
        &self.host
    }

    /// The URL that is probed over HTTP.
    pub fn url(&self) -> (url: &String)
        ensures
            url@ == self@.url,
    {
        &self.url
    }

    /// The status lines found so far in this tick.
    pub fn status(&self) -> (status: &StatusMessage)
        ensures
            status@ == self@.status,
    {
        &self.status
    }

    /// The status text of the tick before.
    pub fn previous(&self) -> (text: &String)
        ensures
            text@ == self@.previous,
    {
        self.dedup.previous()
    }

    /// The roster and the waiting requests.
    pub fn registry(&self) -> (registry: &SubscriberRegistry)
        ensures
            registry@.subscribers == self@.subscribers,
            registry@.pending == self@.pending,
    {
        &self.registry
    }

    /// Records that `identity` asked to subscribe. The request is answered
    /// when the loop next answers requests; until then nothing else changes.
    pub fn enqueue_request(&mut self, identity: u64)
        requires
            old(self).wf(),
        ensures
            final(self).wf(),
            final(self)@ == (MonitorView {
                pending: old(self)@.pending.push(identity),
                ..old(self)@
            }),
    {
        self.registry.enqueue_request(identity);
    }

    /// Goes on to the HTTP probe.
    fn probe(&mut self) -> (action: Action)
        requires
            old(self).wf(),
        ensures
            final(self).wf(),
            final(self)@ == probing(old(self)@).0,
            action@ == probing(old(self)@).1,
    {
        self.phase = Phase::ProbingHttp;
        Action::ProbeHttp { url: self.url.clone() }
    }

    /// Serves the subscriber at the cursor, or goes to sleep.
    fn dispatch(&mut self) -> (action: Action)
        requires
            all_nonempty(old(self)@.status),
            distinct(old(self)@.subscribers),
        ensures
            final(self).wf(),
            final(self)@ == dispatching(old(self)@).0,
            action@ == dispatching(old(self)@).1,
    {
        if self.cursor < self.registry.len() {
            if let Some(text) = &self.outgoing {
                let channel = self.registry.subscriber(self.cursor).channel;
                let text = text.clone();
                self.phase = Phase::Dispatching;
                return Action::Send { channel, text };
            }
        }
        self.phase = Phase::Sleeping;
        Action::Sleep { seconds: TICK_SECONDS }
    }

    /// Answers the next subscription request, or begins to dispatch.
    fn answer(&mut self) -> (action: Action)
        requires
            all_nonempty(old(self)@.status),
            distinct(old(self)@.subscribers),
        ensures
            final(self).wf(),
            final(self)@ == registering(old(self)@).0,
            action@ == registering(old(self)@).1,
    {
        match self.registry.next_request() {
            Some(identity) => {
                self.opening = identity;
                self.phase = Phase::Registering;
                Action::OpenChannel { identity }
            },
            None => {
                self.cursor = 0;
                assert(self.registry@.pending =~= Seq::<u64>::empty());
                self.dispatch()
            },
        }
    }

    /// Decides on the announcement of the tick, then answers requests.
    fn conclude(&mut self) -> (action: Action)
        requires
            old(self).wf(),
        ensures
            final(self).wf(),
            final(self)@ == concluding(old(self)@).0,
            action@ == concluding(old(self)@).1,
    {
        let text = self.status.text();
        self.outgoing = self.dedup.observe(text);
        self.answer()
    }

    /// Takes the outcome of the work that the loop asked for and returns the
    /// work to do next.
    ///
    /// An event that is not expected in the current phase is refused and
    /// leaves the loop as it was. Otherwise the new state and the action are
    /// those of [`next`].
    pub fn step(&mut self, event: Event) -> (result: Result<Action, MonitorError>)
        requires
            old(self).wf(),
        ensures
            final(self).wf(),
            match result {
                Ok(action) => {
                    &&& expected(old(self)@.phase, event)
                    &&& final(self)@ == next(old(self)@, event).0
                    &&& action@ == next(old(self)@, event).1
                },
                Err(error) => {
                    &&& !expected(old(self)@.phase, event)
                    &&& final(self)@ == old(self)@
                    &&& error == (MonitorError::UnexpectedEvent { phase: old(self)@.phase })
                },
            },
    {
        proof {
            lemma_step_lines(old(self)@, event);
        }
        let phase = self.phase;
        match (phase, event) {
            (Phase::Resolving, Event::Resolved { addresses }) => {
                self.phase = Phase::Pinging;
                Ok(Action::Ping { addresses })
            },
            (Phase::Resolving, Event::ResolutionFailed { cause }) => {
                self.status.note_resolution_failed(self.host.as_str(), cause.as_str());
                Ok(self.probe())
            },
            (Phase::Pinging, Event::PingerFailed { cause }) => {
                self.status.note_resolution_failed(self.host.as_str(), cause.as_str());
                Ok(self.probe())
            },
            (Phase::Pinging, Event::Pinged { outcome }) => {
                match outcome {
                    ProbeOutcome::Received { address, .. } => {
                        self.pinged = address;
                        self.phase = Phase::CheckingAddress;
                        Ok(Action::QueryPublicAddress)
                    },
                    other => {
                        self.status.note_probe(&other);
                        Ok(self.probe())
                    },
                }
            },
            (Phase::CheckingAddress, Event::PublicAddress { address }) => {
                self.status.note_public_address(&self.pinged, &address);
                Ok(self.probe())
            },
            (Phase::ProbingHttp, Event::Http { response }) => {
                self.status.note_http(&response);
                Ok(self.conclude())
            },
            (Phase::Registering, Event::ChannelOpened { channel }) => {
                let identity = self.opening;
                self.registry.register(identity, channel);
                self.phase = Phase::Greeting;
                Ok(Action::Greet { identity, channel, text: greeting(identity) })
            },
            (Phase::Registering, Event::ChannelOpenFailed) => Ok(self.answer()),
            (Phase::Greeting, Event::Sent { .. }) => Ok(self.answer()),
            (Phase::Dispatching, Event::Sent { .. }) => {
                let count = self.registry.len();
                assert(self.cursor < count);
                self.cursor = self.cursor + 1;
                Ok(self.dispatch())
            },
            (Phase::Sleeping, Event::Woke) => {
                self.status = StatusMessage::new();
                self.phase = Phase::Resolving;
                Ok(Action::Resolve { host: self.host.clone() })
            },
            (phase, _) => Err(MonitorError::UnexpectedEvent { phase }),
        }
    }
}

} // verus!
