//! What the probes of one tick found, and how it reads: each finding that is
//! worth reporting becomes one line of the tick's status message. A tick that
//! found nothing to report has an empty message.

use crate::dedup::{is_first_colon, lemma_shared_label, same_kind};
use crate::text::{decimal, decimal_digits, optional_text};
use vstd::prelude::*;

verus! {

/// The status code of a healthy HTTP response.
pub const HTTP_OK: u32 = 200;

/// The result of one ping round.
#[derive(Debug, PartialEq, Eq)]
pub enum ProbeOutcome {
    /// The echo was sent and no reply came.
    Idle { address: String },
    /// A reply came from `address` after `round_trip_micros` microseconds.
    Received { address: String, round_trip_micros: u64 },
    /// The round could not be carried out.
    Failed { error: String },
}

/// The result of one HTTP request.
#[derive(Debug, PartialEq, Eq)]
pub enum HttpOutcome {
    /// The server answered with this status code.
    StatusCode(u32),
    /// The request could not be carried out.
    Failed { error: String },
}

/// A host name that could not be resolved, or for which no pinger could be
/// set up.
pub open spec fn resolution_failed_text(host: Seq<char>, cause: Seq<char>) -> Seq<char> {
    "could not resolve hostname ("@ + host + "): "@ + cause
}

/// A ping that was sent and not answered.
pub open spec fn idle_text(address: Seq<char>) -> Seq<char> {
    "the fog idle at address: "@ + address
}

/// A ping round that failed.
pub open spec fn ping_failed_text(error: Seq<char>) -> Seq<char> {
    "failed to ping the fog: "@ + error
}

/// A host that answers at an address other than its public one.
pub open spec fn mismatch_text(pinged: Seq<char>, expected: Seq<char>) -> Seq<char> {
    "the fog's address does not match DNS!: (pinged: `"@ + pinged + "`, expected: `"@ + expected
        + "`)"@
}

/// An HTTP response with a status code other than 200.
pub open spec fn bad_status_text(code: u32) -> Seq<char> {
    "bad response over http: `"@ + decimal_digits(code as nat) + "`"@
}

/// An HTTP request that failed.
pub open spec fn http_failed_text(error: Seq<char>) -> Seq<char> {
    "failed to perform http request: `"@ + error + "`"@
}

/// The lines that a ping outcome adds to the status message. A reply adds
/// none: whether it came from the right address is a separate finding.
pub open spec fn probe_lines(outcome: ProbeOutcome) -> Seq<Seq<char>> {
    match outcome {
        ProbeOutcome::Idle { address } => seq![idle_text(address@)],
        ProbeOutcome::Received { .. } => seq![],
        ProbeOutcome::Failed { error } => seq![ping_failed_text(error@)],
    }
}

/// The lines that the comparison of the pinged address with the public one
/// adds. An unknown public address counts as a match.
pub open spec fn drift_lines(pinged: Seq<char>, public: Option<Seq<char>>) -> Seq<Seq<char>> {
    match public {
        Some(expected) => if expected != pinged {
            seq![mismatch_text(pinged, expected)]
        } else {
            seq![]
        },
        None => seq![],
    }
}

/// The lines that an HTTP outcome adds: none for status 200, one otherwise.
pub open spec fn http_lines(outcome: HttpOutcome) -> Seq<Seq<char>> {
    match outcome {
        HttpOutcome::StatusCode(code) => if code == HTTP_OK {
            seq![]
        } else {
            seq![bad_status_text(code)]
        },
        HttpOutcome::Failed { error } => seq![http_failed_text(error@)],
    }
}

/// The lines joined into one text, a line feed between each two.
pub open spec fn joined(lines: Seq<Seq<char>>) -> Seq<char>
    decreases lines.len(),
{
    if lines.len() == 0 {
        seq![]
    } else if lines.len() == 1 {
        lines[0]
    } else {
        joined(lines.drop_last()) + seq!['\n'] + lines.last()
    }
}

/// The texts of a sequence of strings.
pub open spec fn texts(lines: Seq<String>) -> Seq<Seq<char>> {
    Seq::new(lines.len(), |i: int| lines[i]@)
}

/// The status message of one tick: the lines reported so far, in the order in
/// which they were found.
pub struct StatusMessage {
    lines: Vec<String>,
}

impl View for StatusMessage {
    type V = Seq<Seq<char>>;

    closed spec fn view(&self) -> Seq<Seq<char>> {
        texts(self.lines@)
    }
}

impl StatusMessage {
    /// The message of a tick that has found nothing yet.
    pub fn new() -> (message: StatusMessage)
        ensures
            message@ == Seq::<Seq<char>>::empty(),
    {
        let message = StatusMessage { lines: Vec::new() };
        assert(message@ =~= Seq::<Seq<char>>::empty());
        message
    }

    /// The number of lines.
    pub fn len(&self) -> (count: usize)
        ensures
            count == self@.len(),
    {
        self.lines.len()
    }

    /// Whether the tick found nothing to report.
    pub fn is_empty(&self) -> (empty: bool)
        ensures
            empty == (self@.len() == 0),
    {
        self.lines.len() == 0
    }

    /// The line at position `index`.
    pub fn line(&self, index: usize) -> (line: &String)
        requires
            index < self@.len(),
        ensures
            line@ == self@[index as int],
    {
        &self.lines[index]
    }

    /// Appends one line.
    pub fn push_line(&mut self, line: String)
        ensures
            final(self)@ == old(self)@.push(line@),
    {
        self.lines.push(line);
        assert(self@ =~= old(self)@.push(line@));
    }

    /// Reports that `host` could not be resolved.
    pub fn note_resolution_failed(&mut self, host: &str, cause: &str)
        ensures
            final(self)@ == old(self)@.push(resolution_failed_text(host@, cause@)),
    {
        let mut line = String::from_str("could not resolve hostname (");
        line.append(host);
        line.append("): ");
        line.append(cause);
        self.push_line(line);
    }

    /// Reports the outcome of the ping round.
    pub fn note_probe(&mut self, outcome: &ProbeOutcome)
        ensures
            final(self)@ == old(self)@ + probe_lines(*outcome),
    {
        match outcome {
            ProbeOutcome::Idle { address } => {
                let mut line = String::from_str("the fog idle at address: ");
                line.append(address.as_str());
                self.push_line(line);
            },
            ProbeOutcome::Received { .. } => {},
            ProbeOutcome::Failed { error } => {
                let mut line = String::from_str("failed to ping the fog: ");
                line.append(error.as_str());
                self.push_line(line);
            },
        }
        assert(self@ =~= old(self)@ + probe_lines(*outcome));
    }

    /// Reports how the address that answered the ping compares with the
    /// public address of the host, where that is known.
    pub fn note_public_address(&mut self, pinged: &String, public: &Option<String>)
        ensures
            final(self)@ == old(self)@ + drift_lines(pinged@, optional_text(*public)),
    {
        match public {
            Some(expected) => {
                if *expected != *pinged {
                    let mut line = String::from_str(
                        "the fog's address does not match DNS!: (pinged: `",
                    );
                    line.append(pinged.as_str());
                    line.append("`, expected: `");
                    line.append(expected.as_str());
                    line.append("`)");
                    self.push_line(line);
                }
            },
            None => {},
        }
        assert(self@ =~= old(self)@ + drift_lines(
            pinged@,
            optional_text(*public),
        ));
    }

    /// Reports the outcome of the HTTP request.
    pub fn note_http(&mut self, outcome: &HttpOutcome)
        ensures
            final(self)@ == old(self)@ + http_lines(*outcome),
    {
        match outcome {
            HttpOutcome::StatusCode(code) => {
                if *code != HTTP_OK {
                    let mut line = String::from_str("bad response over http: `");
                    let digits = decimal(*code as u64);
                    line.append(digits.as_str());
                    line.append("`");
                    self.push_line(line);
                }
            },
            HttpOutcome::Failed { error } => {
                let mut line = String::from_str("failed to perform http request: `");
                line.append(error.as_str());
                line.append("`");
                self.push_line(line);
            },
        }
        assert(self@ =~= old(self)@ + http_lines(*outcome));
    }

    /// The whole message as one text: the lines with a line feed between each
    /// two, empty when there is no line.
    pub fn text(&self) -> (text: String)
        ensures
            text@ == joined(self@),
    {
        let mut text = String::new();
        let mut i: usize = 0;
        while i < self.lines.len()
            invariant
                i <= self.lines@.len(),
                text@ == joined(self@.take(i as int)),
            decreases self.lines@.len() - i,
        {
            if i > 0 {
                text.append("\n");
            }
            text.append(self.lines[i].as_str());
            proof {
                reveal_strlit("\n");
                let before = self@.take(i as int);
                let now = self@.take(i + 1);
                assert(now.drop_last() =~= before);
                assert(now.last() == self.lines@[i as int]@);
                assert("\n"@ =~= seq!['\n']);
                assert(text@ =~= joined(now));
            }
            i += 1;
        }
        assert(self@.take(i as int) =~= self@);
        text
    }
}

/// Whether none of the lines is empty.
pub open spec fn all_nonempty(lines: Seq<Seq<char>>) -> bool {
    forall|i: int| 0 <= i < lines.len() ==> #[trigger] lines[i].len() > 0
}

/// The line of a failed resolution is non-empty.
pub proof fn lemma_resolution_failed_nonempty(host: Seq<char>, cause: Seq<char>)
    ensures
        resolution_failed_text(host, cause).len() > 0,
{
    reveal_strlit("could not resolve hostname (");
}

/// A ping outcome adds no empty line.
pub proof fn lemma_probe_lines_nonempty(outcome: ProbeOutcome)
    ensures
        all_nonempty(probe_lines(outcome)),
{
    reveal_strlit("the fog idle at address: ");
    reveal_strlit("failed to ping the fog: ");
}

/// The comparison of addresses adds no empty line.
pub proof fn lemma_drift_lines_nonempty(pinged: Seq<char>, public: Option<Seq<char>>)
    ensures
        all_nonempty(drift_lines(pinged, public)),
{
    reveal_strlit("the fog's address does not match DNS!: (pinged: `");
}

/// An HTTP outcome adds no empty line.
pub proof fn lemma_http_lines_nonempty(outcome: HttpOutcome)
    ensures
        all_nonempty(http_lines(outcome)),
{
    reveal_strlit("bad response over http: `");
    reveal_strlit("failed to perform http request: `");
}

/// The text of a status message is empty exactly when the message has no
/// line, as long as none of its lines is empty.
pub proof fn lemma_joined_empty(lines: Seq<Seq<char>>)
    requires
        all_nonempty(lines),
    ensures
        joined(lines).len() == 0 <==> lines.len() == 0,
    decreases lines.len(),
{
    if lines.len() == 1 {
        assert(lines[0].len() > 0);
    } else if lines.len() > 1 {
        assert(lines.last().len() > 0);
    }
}

/// The text of a status message begins with its first line.
pub proof fn lemma_joined_begins(lines: Seq<Seq<char>>)
    requires
        lines.len() > 0,
    ensures
        lines[0].is_prefix_of(joined(lines)),
    decreases lines.len(),
{
    if lines.len() > 1 {
        let front = lines.drop_last();
        lemma_joined_begins(front);
        assert(front[0] == lines[0]);
        assert(joined(lines).subrange(0, lines[0].len() as int) =~= joined(front).subrange(
            0,
            lines[0].len() as int,
        ));
    } else {
        assert(joined(lines).subrange(0, lines[0].len() as int) =~= lines[0]);
    }
}

/// Two failures to resolve the same host are of the same kind, whatever
/// their causes.
pub proof fn lemma_resolution_failed_same_kind(host: Seq<char>, one: Seq<char>, other: Seq<char>)
    ensures
        same_kind(resolution_failed_text(host, one), resolution_failed_text(host, other)),
{
    reveal_strlit("): ");
    let label = "could not resolve hostname ("@ + host + "): "@;
    assert(label[label.len() - 2] == ':');
    lemma_shared_label(label, one, other);
}

/// Two unanswered pings are of the same kind, whatever their addresses.
pub proof fn lemma_idle_same_kind(one: Seq<char>, other: Seq<char>)
    ensures
        same_kind(idle_text(one), idle_text(other)),
{
    reveal_strlit("the fog idle at address: ");
    assert("the fog idle at address: "@[23] == ':');
    lemma_shared_label("the fog idle at address: "@, one, other);
}

/// Two failed ping rounds are of the same kind, whatever their errors.
pub proof fn lemma_ping_failed_same_kind(one: Seq<char>, other: Seq<char>)
    ensures
        same_kind(ping_failed_text(one), ping_failed_text(other)),
{
    reveal_strlit("failed to ping the fog: ");
    assert("failed to ping the fog: "@[22] == ':');
    lemma_shared_label("failed to ping the fog: "@, one, other);
}

/// Two address mismatches are of the same kind, whatever the addresses.
pub proof fn lemma_mismatch_same_kind(
    pinged: Seq<char>,
    expected: Seq<char>,
    other_pinged: Seq<char>,
    other_expected: Seq<char>,
)
    ensures
        same_kind(mismatch_text(pinged, expected), mismatch_text(other_pinged, other_expected)),
{
    reveal_strlit("the fog's address does not match DNS!: (pinged: `");
    let label = "the fog's address does not match DNS!: (pinged: `"@;
    assert(label[37] == ':');
    lemma_shared_label(
        label,
        pinged + "`, expected: `"@ + expected + "`)"@,
        other_pinged + "`, expected: `"@ + other_expected + "`)"@,
    );
    assert(mismatch_text(pinged, expected) =~= label + (pinged + "`, expected: `"@ + expected
        + "`)"@));
    assert(mismatch_text(other_pinged, other_expected) =~= label + (other_pinged
        + "`, expected: `"@ + other_expected + "`)"@));
}

/// Two bad HTTP responses are of the same kind, whatever their status codes.
pub proof fn lemma_bad_status_same_kind(one: u32, other: u32)
    ensures
        same_kind(bad_status_text(one), bad_status_text(other)),
{
    reveal_strlit("bad response over http: `");
    let label = "bad response over http: `"@;
    assert(label[22] == ':');
    lemma_shared_label(
        label,
        decimal_digits(one as nat) + "`"@,
        decimal_digits(other as nat) + "`"@,
    );
    assert(bad_status_text(one) =~= label + (decimal_digits(one as nat) + "`"@));
    assert(bad_status_text(other) =~= label + (decimal_digits(other as nat) + "`"@));
}

/// Two failed HTTP requests are of the same kind, whatever their errors.
pub proof fn lemma_http_failed_same_kind(one: Seq<char>, other: Seq<char>)
    ensures
        same_kind(http_failed_text(one), http_failed_text(other)),
{
    reveal_strlit("failed to perform http request: `");
    let label = "failed to perform http request: `"@;
    assert(label[30] == ':');
    lemma_shared_label(label, one + "`"@, other + "`"@);
    assert(http_failed_text(one) =~= label + (one + "`"@));
    assert(http_failed_text(other) =~= label + (other + "`"@));
}

/// The kind of a status message is the kind of its first line: two messages
/// whose first lines are of the same kind are of the same kind.
pub proof fn lemma_kind_by_first_line(one: Seq<Seq<char>>, other: Seq<Seq<char>>)
    requires
        one.len() > 0,
        other.len() > 0,
        same_kind(one[0], other[0]),
    ensures
        same_kind(joined(one), joined(other)),
{
    let k = choose|k: int|
        #![trigger is_first_colon(one[0], k)]
        is_first_colon(one[0], k) && is_first_colon(other[0], k) && one[0].take(k + 1)
            == other[0].take(k + 1);
    lemma_joined_begins(one);
    lemma_joined_begins(other);
    let a = joined(one);
    let b = joined(other);
    assert forall|i: int| 0 <= i <= k implies a[i] == one[0][i] && b[i] == other[0][i] by {
        assert(a.subrange(0, one[0].len() as int)[i] == one[0][i]);
        assert(b.subrange(0, other[0].len() as int)[i] == other[0][i]);
    }
    assert(is_first_colon(a, k));
    assert(is_first_colon(b, k));
    assert forall|i: int| 0 <= i <= k implies a[i] == b[i] by {
        assert(one[0].take(k + 1)[i] == other[0].take(k + 1)[i]);
    }
    assert(a.take(k + 1) =~= b.take(k + 1));
}

} // verus!
