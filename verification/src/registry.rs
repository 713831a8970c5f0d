//! The roster of subscribers: who asked for alerts, and who has a private
//! channel open to receive them. No identity is ever registered twice.

use crate::text::decimal_digits;
use std::collections::VecDeque;
use vstd::prelude::*;

verus! {

/// An identity that receives alerts through its private channel.
#[derive(Clone, Copy, Debug, PartialEq, Eq, Structural)]
pub struct Subscriber {
    /// The user, the key of the roster.
    pub identity: u64,
    /// The private channel that was opened for the user.
    pub channel: u64,
}

/// Whether `identity` is on the roster.
pub open spec fn registered(subscribers: Seq<Subscriber>, identity: u64) -> bool {
    exists|i: int| 0 <= i < subscribers.len() && #[trigger] subscribers[i].identity == identity
}

/// Whether no identity occurs twice on the roster.
pub open spec fn distinct(subscribers: Seq<Subscriber>) -> bool {
    forall|i: int, j: int|
        0 <= i < j < subscribers.len() ==> #[trigger] subscribers[i].identity
            != #[trigger] subscribers[j].identity
}

/// How often `identity` occurs on the roster.
pub open spec fn occurrences(subscribers: Seq<Subscriber>, identity: u64) -> nat
    decreases subscribers.len(),
{
    if subscribers.len() == 0 {
        0
    } else {
        occurrences(subscribers.drop_last(), identity) + if subscribers.last().identity
            == identity {
            1nat
        } else {
            0nat
        }
    }
}

/// The roster after `identity` was given `channel`: one entry more at the end,
/// unless the identity was on it already.
pub open spec fn enrolled(subscribers: Seq<Subscriber>, identity: u64, channel: u64) -> Seq<
    Subscriber,
> {
    if registered(subscribers, identity) {
        subscribers
    } else {
        subscribers.push(Subscriber { identity, channel })
    }
}

/// The requests that still call for an answer: `pending` without the leading
/// requests of identities that are on the roster already.
pub open spec fn unanswered(subscribers: Seq<Subscriber>, pending: Seq<u64>) -> Seq<u64>
    decreases pending.len(),
{
    if pending.len() == 0 {
        pending
    } else if registered(subscribers, pending[0]) {
        unanswered(subscribers, pending.drop_first())
    } else {
        pending
    }
}

/// The text by which a message addresses the user `identity`.
pub open spec fn mention_text(identity: u64) -> Seq<char> {
    "<@"@ + decimal_digits(identity as nat) + ">"@
}

/// The greeting that a new subscriber receives once.
pub open spec fn greeting_text(identity: u64) -> Seq<char> {
    "Hello "@ + mention_text(identity)
        + "! I'll be opening DMs with you to notify you of server events!\n"@
}

/// The mention of a user as `serenity` formats it, by `Display` for
/// `serenity::model::mention::Mention`: the user's number in decimal between
/// `<@` and `>`.
#[verifier::external_body]
fn user_mention(identity: u64) -> (text: String)
    ensures
        text@ == mention_text(identity),
{
    serenity::model::mention::Mention::from(serenity::model::id::UserId(identity)).to_string()
}

/// The greeting for the new subscriber `identity`.
pub fn greeting(identity: u64) -> (text: String)
    ensures
        text@ == greeting_text(identity),
{
    let mut text = String::from_str("Hello ");
    let mention = user_mention(identity);
    text.append(mention.as_str());
    text.append("! I'll be opening DMs with you to notify you of server events!\n");
    text
}

/// The roster and the queue of requests, as plain sequences.
pub struct RegistryView {
    /// The subscribers, in the order in which they were registered.
    pub subscribers: Seq<Subscriber>,
    /// The identities that asked to subscribe, oldest first.
    pub pending: Seq<u64>,
}

/// The subscribers and the requests that wait to be answered.
pub struct SubscriberRegistry {
    subscribers: Vec<Subscriber>,
    pending: VecDeque<u64>,
}

impl View for SubscriberRegistry {
    type V = RegistryView;

    closed spec fn view(&self) -> RegistryView {
        RegistryView { subscribers: self.subscribers@, pending: self.pending@ }
    }
}

impl SubscriberRegistry {
    /// The invariant of the roster: no identity is on it twice.
    pub open spec fn wf(&self) -> bool {
        distinct(self@.subscribers)
    }

    /// An empty roster with no request waiting.
    pub fn new() -> (registry: SubscriberRegistry)
        ensures
            registry@.subscribers == Seq::<Subscriber>::empty(),
            registry@.pending == Seq::<u64>::empty(),
            registry.wf(),
    {
        SubscriberRegistry { subscribers: Vec::new(), pending: VecDeque::new() }
    }

    /// Records that `identity` asked to subscribe. Nothing else happens until
    /// the request is taken from the queue.
    pub fn enqueue_request(&mut self, identity: u64)
        requires
            old(self).wf(),
        ensures
            final(self).wf(),
            final(self)@.pending == old(self)@.pending.push(identity),
            final(self)@.subscribers == old(self)@.subscribers,
    {
        self.pending.push_back(identity);
    }

    /// Whether `identity` is on the roster.
    pub fn is_registered(&self, identity: u64) -> (found: bool)
        ensures
            found == registered(self@.subscribers, identity),
    {
        let mut i: usize = 0;
        while i < self.subscribers.len()
            invariant
                i <= self.subscribers@.len(),
                forall|j: int| 0 <= j < i ==> self.subscribers@[j].identity != identity,
            decreases self.subscribers@.len() - i,
        {
            if self.subscribers[i].identity == identity {
                return true;
            }
            i += 1;
        }
        false
    }

    /// Takes the next request that calls for an answer: requests of identities
    /// that are on the roster already are dropped in passing. `None` when the
    /// queue has run empty.
    pub fn next_request(&mut self) -> (request: Option<u64>)
        requires
            old(self).wf(),
        ensures
            final(self).wf(),
            final(self)@.subscribers == old(self)@.subscribers,
            ({
                let rest = unanswered(old(self)@.subscribers, old(self)@.pending);
                if rest.len() == 0 {
                    request is None && final(self)@.pending.len() == 0
                } else {
                    request == Some(rest[0]) && final(self)@.pending == rest.drop_first()
                }
            }),
            request matches Some(identity) ==> !registered(old(self)@.subscribers, identity),
    {
        loop
            invariant
                self.subscribers@ == old(self).subscribers@,
                distinct(self.subscribers@),
                unanswered(self.subscribers@, self.pending@) == unanswered(
                    old(self).subscribers@,
                    old(self).pending@,
                ),
            decreases self.pending@.len(),
        {
            match self.pending.pop_front() {
                None => {
                    return None;
                },
                Some(identity) => {
                    if !self.is_registered(identity) {
                        return Some(identity);
                    }
                },
            }
        }
    }

    /// Registers `identity` with its private channel, unless it is on the
    /// roster already. Returns whether an entry was added.
    pub fn register(&mut self, identity: u64, channel: u64) -> (added: bool)
        requires
            old(self).wf(),
        ensures
            final(self).wf(),
            added == !registered(old(self)@.subscribers, identity),
            final(self)@.subscribers == enrolled(old(self)@.subscribers, identity, channel),
            final(self)@.pending == old(self)@.pending,
    {
        if self.is_registered(identity) {
            false
        } else {
            self.subscribers.push(Subscriber { identity, channel });
            true
        }
    }

    /// The number of subscribers.
    pub fn len(&self) -> (count: usize)
        ensures
            count == self@.subscribers.len(),
    {
        self.subscribers.len()
    }

    /// The subscriber at position `index`, in the order of registration.
    pub fn subscriber(&self, index: usize) -> (subscriber: Subscriber)
        requires
            index < self@.subscribers.len(),
        ensures
            subscriber == self@.subscribers[index as int],
    {
        self.subscribers[index]
    }

    /// The number of requests that wait in the queue.
    pub fn pending_len(&self) -> (count: usize)
        ensures
            count == self@.pending.len(),
    {
        self.pending.len()
    }
}

/// An identity is on the roster exactly when it occurs there, and on a roster
/// without repetition it occurs at most once.
pub proof fn lemma_occurrences(subscribers: Seq<Subscriber>, identity: u64)
    ensures
        registered(subscribers, identity) <==> occurrences(subscribers, identity) >= 1,
        distinct(subscribers) ==> occurrences(subscribers, identity) <= 1,
    decreases subscribers.len(),
{
    if subscribers.len() > 0 {
        let front = subscribers.drop_last();
        let last = subscribers.len() - 1;
        lemma_occurrences(front, identity);
        if registered(front, identity) {
            let i = choose|i: int| 0 <= i < front.len() && #[trigger] front[i].identity == identity;
            assert(subscribers[i].identity == identity);
        }
        if registered(subscribers, identity) && subscribers[last].identity != identity {
            let i = choose|i: int|
                0 <= i < subscribers.len() && #[trigger] subscribers[i].identity == identity;
            assert(front[i].identity == identity);
        }
        if subscribers[last].identity == identity {
            assert(registered(subscribers, identity));
        }
        if distinct(subscribers) {
            assert forall|i: int, j: int| 0 <= i < j < front.len() implies #[trigger] front[i]
                .identity != #[trigger] front[j].identity by {
                assert(subscribers[i].identity != subscribers[j].identity);
            }
            if subscribers[last].identity == identity && registered(front, identity) {
                let i = choose|i: int|
                    0 <= i < front.len() && #[trigger] front[i].identity == identity;
                assert(subscribers[i].identity != subscribers[last].identity);
            }
        }
    }
}

/// Registration is idempotent: however often an identity is registered, and
/// with whatever channels, it is on the roster once, with the channel of the
/// first registration, and the roster stays without repetition.
pub proof fn lemma_register_idempotent(
    subscribers: Seq<Subscriber>,
    identity: u64,
    first: u64,
    second: u64,
)
    requires
        distinct(subscribers),
    ensures
        distinct(enrolled(subscribers, identity, first)),
        registered(enrolled(subscribers, identity, first), identity),
        occurrences(enrolled(subscribers, identity, first), identity) == 1,
        enrolled(enrolled(subscribers, identity, first), identity, second) == enrolled(
            subscribers,
            identity,
            first,
        ),
{
    let once = enrolled(subscribers, identity, first);
    if !registered(subscribers, identity) {
        assert(once.last().identity == identity);
        assert forall|i: int, j: int| 0 <= i < j < once.len() implies #[trigger] once[i].identity
            != #[trigger] once[j].identity by {
            assert(once[i] == subscribers[i]);
            if j < subscribers.len() {
                assert(once[j] == subscribers[j]);
            }
        }
    }
    lemma_occurrences(once, identity);
}

/// A request that is handed out for an answer never names an identity that is
/// on the roster.
pub proof fn lemma_unanswered_unregistered(subscribers: Seq<Subscriber>, pending: Seq<u64>)
    ensures
        unanswered(subscribers, pending).len() <= pending.len(),
        unanswered(subscribers, pending).len() > 0 ==> !registered(
            subscribers,
            unanswered(subscribers, pending)[0],
        ),
    decreases pending.len(),
{
    if pending.len() > 0 && registered(subscribers, pending[0]) {
        lemma_unanswered_unregistered(subscribers, pending.drop_first());
    }
}

} // verus!
