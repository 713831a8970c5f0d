//! Alert deduplication: a failure that persists is announced once, a change of
//! failure kind is announced again, and the return to health is announced with
//! a fixed message.

use crate::text::optional_text;
use vstd::prelude::*;
use vstd::std_specs::iter::IteratorSpec;

verus! {

/// Whether `k` is the position of the first `:` of `s`.
pub open spec fn is_first_colon(s: Seq<char>, k: int) -> bool {
    &&& 0 <= k < s.len()
    &&& s[k] == ':'
    &&& forall|i: int| 0 <= i < k ==> s[i] != ':'
}

/// Two texts are of the same kind when both hold a `:` and they agree on every
/// character up to and including the first one.
pub open spec fn same_kind(a: Seq<char>, b: Seq<char>) -> bool {
    exists|k: int|
        #![trigger is_first_colon(a, k)]
        is_first_colon(a, k) && is_first_colon(b, k) && a.take(k + 1) == b.take(k + 1)
}

/// Compares two status texts by their kind: true exactly when both agree up to
/// and including their first `:`.
pub fn is_same_err(a: &String, b: &String) -> (same: bool)
    ensures
        same == same_kind(a@, b@),
{
    let mut xs = a.as_str().chars();
    let mut ys = b.as_str().chars();
    let ghost mut i: int = 0;
    loop
        invariant
            0 <= i <= a@.len(),
            i <= b@.len(),
            xs.remaining() == a@.skip(i),
            ys.remaining() == b@.skip(i),
            forall|j: int| 0 <= j < i ==> a@[j] == b@[j] && a@[j] != ':',
        decreases a@.len() - i,
    {
        match (xs.next(), ys.next()) {
            (Some(x), Some(y)) => {
                assert(x == a@[i] && y == b@[i]);
                if x != y {
                    assert(!same_kind(a@, b@)) by {
                        if same_kind(a@, b@) {
                            let k = choose|k: int|
                                #![trigger is_first_colon(a@, k)]
                                is_first_colon(a@, k) && is_first_colon(b@, k) && a@.take(k + 1)
                                    == b@.take(k + 1);
                            assert(a@.take(k + 1)[i] == b@.take(k + 1)[i]);
                        }
                    }
                    return false;
                }
                if x == ':' {
                    assert(is_first_colon(a@, i));
                    assert(is_first_colon(b@, i));
                    assert(a@.take(i + 1) =~= b@.take(i + 1));
                    return true;
                }
                proof {
                    assert(a@.skip(i).drop_first() =~= a@.skip(i + 1));
                    assert(b@.skip(i).drop_first() =~= b@.skip(i + 1));
                    i = i + 1;
                }
            },
            _ => {
                assert(i == a@.len() || i == b@.len());
                assert(!same_kind(a@, b@));
                return false;
            },
        }
    }
}

/// The fixed text that announces the return to health.
pub const RECOVERY_MESSAGE: &'static str = "service is functioning normally again";

/// What is announced, if anything, for the status text `current` of a tick
/// that follows a tick whose text was `previous`.
///
/// An empty text after a non-empty one announces the recovery. A non-empty
/// text is announced as it is unless it is of the same kind as the previous
/// one. Nothing is announced while the host stays healthy.
pub open spec fn decision(current: Seq<char>, previous: Seq<char>) -> Option<Seq<char>> {
    if current.len() == 0 {
        if previous.len() == 0 {
            None
        } else {
            Some(RECOVERY_MESSAGE@)
        }
    } else if same_kind(current, previous) {
        None
    } else {
        Some(current)
    }
}

/// Decides whether the status text of a tick is announced, given the text of
/// the tick before it. Returns the message to send, or `None` to stay silent.
pub fn decide(current: &String, previous: &String) -> (message: Option<String>)
    ensures
        optional_text(message) == decision(current@, previous@),
{
    if current.as_str().is_empty() {
        if previous.as_str().is_empty() {
            None
        } else {
            Some(String::from_str(RECOVERY_MESSAGE))
        }
    } else if is_same_err(current, previous) {
        None
    } else {
        Some(current.clone())
    }
}

/// One observation: with the text `before` remembered, the text `current`
/// arrives, `message` is announced and `after` is remembered from then on.
pub open spec fn observes(
    before: Seq<char>,
    current: Seq<char>,
    message: Option<Seq<char>>,
    after: Seq<char>,
) -> bool {
    message == decision(current, before) && after == current
}

/// The status text of the last tick, kept to compare the next one against.
pub struct DedupState {
    previous: String,
}

impl View for DedupState {
    type V = Seq<char>;

    closed spec fn view(&self) -> Seq<char> {
        self.previous@
    }
}

impl DedupState {
    /// The state before the first tick: no text was seen.
    pub fn new() -> (state: DedupState)
        ensures
            state@ == Seq::<char>::empty(),
    {
        DedupState { previous: String::new() }
    }

    /// The text that the next tick is compared against.
    pub fn previous(&self) -> (text: &String)
        ensures
            text@ == self@,
    {
        &self.previous
    }

    /// Takes the status text of a tick: decides on the announcement, then
    /// remembers the text as it is, whatever was decided.
    pub fn observe(&mut self, current: String) -> (message: Option<String>)
        ensures
            observes(old(self)@, current@, optional_text(message), final(self)@),
    {
        let message = decide(&current, &self.previous);
        self.previous = current;
        message
    }
}

/// Being of the same kind does not depend on the order of the two texts.
pub proof fn lemma_same_kind_symmetric(a: Seq<char>, b: Seq<char>)
    ensures
        same_kind(a, b) == same_kind(b, a),
{
    if same_kind(a, b) {
        let k = choose|k: int|
            #![trigger is_first_colon(a, k)]
            is_first_colon(a, k) && is_first_colon(b, k) && a.take(k + 1) == b.take(k + 1);
        assert(is_first_colon(b, k));
    }
    if same_kind(b, a) {
        let k = choose|k: int|
            #![trigger is_first_colon(b, k)]
            is_first_colon(b, k) && is_first_colon(a, k) && b.take(k + 1) == a.take(k + 1);
        assert(is_first_colon(a, k));
    }
}

/// A text without any `:` is of the same kind as no text, itself included.
pub proof fn lemma_no_colon_no_kind(a: Seq<char>, b: Seq<char>)
    requires
        forall|i: int| 0 <= i < a.len() ==> a[i] != ':',
    ensures
        !same_kind(a, b),
        !same_kind(b, a),
{
    lemma_same_kind_symmetric(a, b);
}

/// Two texts that differ at a position before which neither holds a `:` are
/// of different kinds.
pub proof fn lemma_differ_before_colon(a: Seq<char>, b: Seq<char>, at: int)
    requires
        0 <= at < a.len(),
        0 <= at < b.len(),
        a[at] != b[at],
        forall|i: int| 0 <= i < at ==> a[i] != ':' && b[i] != ':',
    ensures
        !same_kind(a, b),
{
    if same_kind(a, b) {
        let k = choose|k: int|
            #![trigger is_first_colon(a, k)]
            is_first_colon(a, k) && is_first_colon(b, k) && a.take(k + 1) == b.take(k + 1);
        assert(a.take(k + 1)[at] == b.take(k + 1)[at]);
    }
}

/// Two texts that begin with the same label are of the same kind as soon as
/// the label holds a `:`, whatever follows it.
pub proof fn lemma_shared_label(label: Seq<char>, a: Seq<char>, b: Seq<char>)
    requires
        exists|i: int| 0 <= i < label.len() && label[i] == ':',
    ensures
        same_kind(label + a, label + b),
{
    let i = choose|i: int| 0 <= i < label.len() && label[i] == ':';
    let k = first_colon_upto(label, i);
    assert(is_first_colon(label + a, k));
    assert(is_first_colon(label + b, k));
    assert((label + a).take(k + 1) =~= (label + b).take(k + 1));
}

/// The position of the first `:` of `s`, given that one stands at `i`.
proof fn first_colon_upto(s: Seq<char>, i: int) -> (k: int)
    requires
        0 <= i < s.len(),
        s[i] == ':',
    ensures
        is_first_colon(s, k),
        k <= i,
    decreases i,
{
    if exists|j: int| 0 <= j < i && s[j] == ':' {
        let j = choose|j: int| 0 <= j < i && s[j] == ':';
        first_colon_upto(s, j)
    } else {
        i
    }
}

/// A failure that persists is announced once: a non-empty text that agrees
/// with the non-empty text observed just before it, up to and including their
/// first `:`, is suppressed.
pub proof fn lemma_repeat_suppressed(
    first: Seq<char>,
    second: Seq<char>,
    message: Option<Seq<char>>,
    after: Seq<char>,
)
    requires
        first.len() > 0,
        second.len() > 0,
        same_kind(first, second),
        observes(first, second, message, after),
    ensures
        message is None,
        after == second,
{
    lemma_same_kind_symmetric(first, second);
}

/// A change of failure is announced: of two non-empty texts of different
/// kinds, observed one after the other from the initial state, both are
/// announced as they are.
pub proof fn lemma_change_announced(
    first: Seq<char>,
    second: Seq<char>,
    first_message: Option<Seq<char>>,
    between: Seq<char>,
    second_message: Option<Seq<char>>,
    after: Seq<char>,
)
    requires
        first.len() > 0,
        second.len() > 0,
        !same_kind(first, second),
        observes(Seq::<char>::empty(), first, first_message, between),
        observes(between, second, second_message, after),
    ensures
        first_message == Some(first),
        second_message == Some(second),
{
    lemma_no_colon_no_kind(Seq::<char>::empty(), first);
    lemma_same_kind_symmetric(first, second);
}

/// Recovery: an empty text after a non-empty one announces the fixed recovery
/// message, and the remembered text is empty afterwards.
pub proof fn lemma_recovery_announced(
    previous: Seq<char>,
    current: Seq<char>,
    message: Option<Seq<char>>,
    after: Seq<char>,
)
    requires
        previous.len() > 0,
        current.len() == 0,
        observes(previous, current, message, after),
    ensures
        message == Some(RECOVERY_MESSAGE@),
        after.len() == 0,
{
}

/// While the host stays healthy nothing is announced.
pub proof fn lemma_healthy_silent(message: Option<Seq<char>>, after: Seq<char>)
    requires
        observes(Seq::<char>::empty(), Seq::<char>::empty(), message, after),
    ensures
        message is None,
        after.len() == 0,
{
}

} // verus!
