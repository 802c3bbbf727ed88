use crate::logger::traits::LogLevel;
use crate::worker::messages::{
    ChangeView, MessageView, ProgressChangeMessage, ProgressMessage, ProgressView, WorkerMessage,
};
use crate::worker::target::{url_parse, TargetUrl};
use url::ParseError;
use vstd::prelude::*;
use vstd::string::*;

verus! {

/// The status that marks a path as absent.
pub const NOT_FOUND: u16 = 404;

/// The decimal digit `d`, for `d < 10`.
pub open spec fn digit(d: nat) -> char {
    if d == 0 {
        '0'
    } else if d == 1 {
        '1'
    } else if d == 2 {
        '2'
    } else if d == 3 {
        '3'
    } else if d == 4 {
        '4'
    } else if d == 5 {
        '5'
    } else if d == 6 {
        '6'
    } else if d == 7 {
        '7'
    } else if d == 8 {
        '8'
    } else {
        '9'
    }
}

/// The decimal numeral of `n`, without leading zeros.
pub open spec fn decimal(n: nat) -> Seq<char>
    decreases n,
{
    if n < 10 {
        seq![digit(n)]
    } else {
        decimal(n / 10).push(digit(n % 10))
    }
}

/// The URL probed for `word` under `base`: the word as a directory below the
/// base, with exactly one slash between the two.
pub open spec fn candidate_text(base: Seq<char>, word: Seq<char>) -> Seq<char> {
    if base.len() > 0 && base.last() == '/' {
        base + word + seq!['/']
    } else {
        base + seq!['/'] + word + seq!['/']
    }
}

/// Text printed for a path that exists.
pub open spec fn hit_text(candidate: Seq<char>, status: u16) -> Seq<char> {
    "GET "@ + candidate + " -> "@ + decimal(status as nat)
}

/// Text logged for a path that exists.
pub open spec fn record_text(candidate: Seq<char>, status: u16) -> Seq<char> {
    candidate + " -> "@ + decimal(status as nat)
}

/// Text printed for a request that did not get through.
pub open spec fn failure_text(candidate: Seq<char>, error: Seq<char>) -> Seq<char> {
    "Error while sending request to "@ + candidate + ": "@ + error
}

/// How a GET request ended.
#[derive(Debug, Clone, PartialEq, Eq)]
pub enum ProbeOutcome {
    /// A response arrived, with this status.
    Status(u16),
    /// No response arrived; the text says why.
    Failed(String),
}

/// Mathematical value of a [`ProbeOutcome`].
pub enum OutcomeView {
    Status(u16),
    Failed(Seq<char>),
}

impl View for ProbeOutcome {
    type V = OutcomeView;

    open spec fn view(&self) -> OutcomeView {
        match self {
            ProbeOutcome::Status(s) => OutcomeView::Status(*s),
            ProbeOutcome::Failed(e) => OutcomeView::Failed(e@),
        }
    }
}

/// A probe is a discovery when a response arrived and its status is not 404.
pub open spec fn is_discovery(outcome: OutcomeView) -> bool {
    outcome matches OutcomeView::Status(s) && s != NOT_FOUND
}

pub open spec fn advance_current() -> MessageView {
    MessageView::Progress(ProgressView::Current(ChangeView::Advance))
}

pub open spec fn advance_total() -> MessageView {
    MessageView::Progress(ProgressView::Total(ChangeView::Advance))
}

/// What a probe reports before the counters advance.
pub open spec fn outcome_messages(candidate: Seq<char>, outcome: OutcomeView) -> Seq<MessageView> {
    match outcome {
        OutcomeView::Failed(error) => seq![
            MessageView::Progress(
                ProgressView::Current(ChangeView::Print(failure_text(candidate, error))),
            ),
        ],
        OutcomeView::Status(status) => if status == NOT_FOUND {
            seq![
                MessageView::Progress(
                    ProgressView::Current(ChangeView::SetMessage(hit_text(candidate, status))),
                ),
            ]
        } else {
            seq![
                MessageView::Progress(
                    ProgressView::Current(ChangeView::Print(hit_text(candidate, status))),
                ),
                MessageView::Log(LogLevel::INFO, record_text(candidate, status)),
            ]
        },
    }
}

/// The messages of one probe, in the order in which they are emitted: what
/// the outcome calls for, then one advance on each stream.
pub open spec fn probe_messages(candidate: Seq<char>, outcome: OutcomeView) -> Seq<MessageView> {
    outcome_messages(candidate, outcome) + seq![advance_current(), advance_total()]
}

/// The views of a list of messages.
pub open spec fn views(messages: Seq<WorkerMessage>) -> Seq<MessageView> {
    messages.map_values(|m: WorkerMessage| m@)
}

/// What a discovery adds to the frontier.
#[derive(Debug, PartialEq, Eq)]
pub enum Discovery {
    /// The probe found nothing.
    Nothing,
    /// The probe found this URL.
    Found(TargetUrl),
    /// The probe found a path, but its URL does not parse.
    Malformed(ParseError),
}

/// What one probe leaves behind.
#[derive(Debug, PartialEq, Eq)]
pub struct ProbeReport {
    /// The messages to emit, in order.
    pub messages: Vec<WorkerMessage>,
    /// The URL to scan later, if the probe found one.
    pub discovery: Discovery,
}

fn digit_str(d: usize) -> (s: &'static str)
    requires
        d < 10,
    ensures
        s@ == seq![digit(d as nat)],
{
    proof {
        reveal_strlit("0");
        reveal_strlit("1");
        reveal_strlit("2");
        reveal_strlit("3");
        reveal_strlit("4");
        reveal_strlit("5");
        reveal_strlit("6");
        reveal_strlit("7");
        reveal_strlit("8");
        reveal_strlit("9");
    }
    let s: &'static str = if d == 0 {
        "0"
    } else if d == 1 {
        "1"
    } else if d == 2 {
        "2"
    } else if d == 3 {
        "3"
    } else if d == 4 {
        "4"
    } else if d == 5 {
        "5"
    } else if d == 6 {
        "6"
    } else if d == 7 {
        "7"
    } else if d == 8 {
        "8"
    } else {
        "9"
    };
    assert(s@ =~= seq![digit(d as nat)]);
    s
}

/// The decimal numeral of a number.
pub fn number_text(n: usize) -> (s: String)
    ensures
        s@ == decimal(n as nat),
    decreases n,
{
    if n < 10 {
        String::from_str(digit_str(n))
    } else {
        let mut s = number_text(n / 10);
        s.append(digit_str(n % 10));
        assert(s@ =~= decimal(n as nat));
        s
    }
}

/// The decimal numeral of a status.
pub fn status_text(status: u16) -> (s: String)
    ensures
        s@ == decimal(status as nat),
{
    number_text(status as usize)
}

/// Whether a text ends with a slash.
fn ends_with_slash(text: &str) -> (b: bool)
    ensures
        b == (text@.len() > 0 && text@.last() == '/'),
{
    let n: usize = text.unicode_len();
    n > 0 && text.get_char(n - 1) == '/'
}

/// The URL to probe for `word` under `base`.
pub fn candidate(base: &str, word: &str) -> (c: String)
    ensures
        c@ == candidate_text(base@, word@),
{
    proof {
        reveal_strlit("/");
    }
    let mut c = String::from_str(base);
    if !ends_with_slash(base) {
        c.append("/");
    }
    c.append(word);
    c.append("/");
    assert(c@ =~= candidate_text(base@, word@));
    c
}

fn hit_line(candidate: &str, status: u16) -> (s: String)
    ensures
        s@ == hit_text(candidate@, status),
{
    let mut s = String::from_str("GET ");
    s.append(candidate);
    s.append(" -> ");
    s.append(status_text(status).as_str());
    s
}

fn record_line(candidate: &str, status: u16) -> (s: String)
    ensures
        s@ == record_text(candidate@, status),
{
    let mut s = String::from_str(candidate);
    s.append(" -> ");
    s.append(status_text(status).as_str());
    s
}

fn failure_line(candidate: &str, error: &str) -> (s: String)
    ensures
        s@ == failure_text(candidate@, error@),
{
    let mut s = String::from_str("Error while sending request to ");
    s.append(candidate);
    s.append(": ");
    s.append(error);
    s
}

impl ProbeOutcome {
    /// Whether the probe found a path: a response arrived, and its status is
    /// not 404.
    pub fn is_discovery(&self) -> (b: bool)
        ensures
            b == is_discovery(self@),
    {
        match self {
            ProbeOutcome::Status(status) => *status != NOT_FOUND,
            ProbeOutcome::Failed(_) => false,
        }
    }
}

impl Discovery {
    /// What the parser's answer for the candidate of a discovery means for
    /// the frontier.
    pub fn from_parse(parsed: Result<TargetUrl, ParseError>) -> (discovery: Discovery)
        ensures
            discovery == (match parsed {
                Ok(url) => Discovery::Found(url),
                Err(e) => Discovery::Malformed(e),
            }),
    {
        match parsed {
            Ok(url) => Discovery::Found(url),
            Err(e) => Discovery::Malformed(e),
        }
    }
}

/// What follows from one probe: the messages to emit and, for a discovery,
/// the URL that joins the frontier.
///
/// The messages are those of [`announce`]. The candidate of a discovery is
/// parsed for the frontier.
pub fn probe(candidate: &str, outcome: &ProbeOutcome) -> (report: ProbeReport)
    ensures
        views(report.messages@) == probe_messages(candidate@, outcome@),
        !is_discovery(outcome@) ==> report.discovery is Nothing,
        is_discovery(outcome@) ==> match report.discovery {
            Discovery::Nothing => false,
            Discovery::Found(u) => url_parse(candidate@) == Some(u@),
            Discovery::Malformed(_) => url_parse(candidate@) is None,
        },
{
    let messages = announce(candidate, outcome);
    let discovery = if outcome.is_discovery() {
        Discovery::from_parse(TargetUrl::parse(candidate))
    } else {
        Discovery::Nothing
    };
    ProbeReport { messages, discovery }
}

/// The messages of one probe, in the order of their emission.
///
/// Every outcome ends with one advance on each stream. Before that, a failed
/// request is printed; a 404 only sets the current message; any other status
/// is printed and logged.
pub fn announce(candidate: &str, outcome: &ProbeOutcome) -> (messages: Vec<WorkerMessage>)
    ensures
        views(messages@) == probe_messages(candidate@, outcome@),
{
    let mut messages: Vec<WorkerMessage> = Vec::new();
    match outcome {
        ProbeOutcome::Failed(error) => {
            messages.push(
                WorkerMessage::Progress(
                    ProgressMessage::Current(
                        ProgressChangeMessage::Print(failure_line(candidate, error.as_str())),
                    ),
                ),
            );
        },
        ProbeOutcome::Status(status) => {
            if *status == NOT_FOUND {
                messages.push(
                    WorkerMessage::Progress(
                        ProgressMessage::Current(
                            ProgressChangeMessage::SetMessage(hit_line(candidate, *status)),
                        ),
                    ),
                );
            } else {
                messages.push(
                    WorkerMessage::Progress(
                        ProgressMessage::Current(
                            ProgressChangeMessage::Print(hit_line(candidate, *status)),
                        ),
                    ),
                );
                messages.push(WorkerMessage::log(LogLevel::INFO, record_line(candidate, *status)));
            }
        },
    }
    assert(views(messages@) =~= outcome_messages(candidate@, outcome@));
    messages.push(WorkerMessage::advance_current());
    messages.push(WorkerMessage::advance_total());
    assert(views(messages@) =~= probe_messages(candidate@, outcome@));
    messages
}

} // verus!
