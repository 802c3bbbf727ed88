use crate::buster::{error_text, BusterError, BusterErrorView};
use crate::logger::traits::LogLevel;
use crate::worker::messages::{ChangeView, MessageView, ProgressView, WorkerMessage};
use crate::worker::probe::views;
use crate::worker::slices::{slice_end, slice_plan, slice_start};
use crate::worker::target::{TargetUrl, TargetUrlView};
use std::sync::mpsc::Sender;
use std::sync::Arc;
use vstd::prelude::*;
use vstd::string::*;

verus! {

/// The sending half of a channel of `std::sync::mpsc`. The engine only
/// carries it: whoever drives a scan sends the messages through it.
#[verifier::external_type_specification]
#[verifier::external_body]
#[verifier::reject_recursive_types(T)]
pub struct ExSender<T>(std::sync::mpsc::Sender<T>);

/// The views of a list of URLs.
pub open spec fn url_views(urls: Seq<TargetUrl>) -> Seq<TargetUrlView> {
    urls.map_values(|u: TargetUrl| u@)
}

/// A URL is scanned when it has path segments and lies at most `limit`
/// segments below the base.
pub open spec fn admissible(url: TargetUrlView, base_depth: nat, limit: nat) -> bool {
    url.segments matches Some(n) && n <= base_depth + limit
}

pub open spec fn set_total_size(size: nat) -> MessageView {
    MessageView::Progress(ProgressView::Total(ChangeView::SetSize(size)))
}

pub open spec fn set_current_size(size: nat) -> MessageView {
    MessageView::Progress(ProgressView::Current(ChangeView::SetSize(size)))
}

pub open spec fn finish_current() -> MessageView {
    MessageView::Progress(ProgressView::Current(ChangeView::Finish))
}

pub open spec fn finish_total() -> MessageView {
    MessageView::Progress(ProgressView::Total(ChangeView::Finish))
}

/// What the driver asks for next.
pub struct StepView {
    /// The messages to emit now, in order.
    pub messages: Seq<MessageView>,
    /// The URL to scan now; `None` when the scan is over.
    pub subject: Option<TargetUrlView>,
}

/// Mathematical value of a [`Run`].
pub struct RunView {
    /// The URLs that wait for a scan; the last one is taken first.
    pub frontier: Seq<TargetUrlView>,
    /// Path segments of the base URL.
    pub base_depth: nat,
    /// How many segments below the base a scanned URL may lie.
    pub recursion_depth: nat,
    /// Length of the wordlist.
    pub lines_len: nat,
    /// The announced size of the whole scan.
    pub progress_len: nat,
    /// Whether the end of the scan has been announced.
    pub finished: bool,
}

impl RunView {
    /// The state at the start of a scan of `base`.
    pub open spec fn start(
        base: TargetUrlView,
        base_depth: nat,
        recursion_depth: nat,
        lines_len: nat,
    ) -> RunView {
        RunView {
            frontier: seq![base],
            base_depth,
            recursion_depth,
            lines_len,
            progress_len: lines_len,
            finished: false,
        }
    }

    /// One decision of the driver. URLs that lie too deep are dropped from
    /// the top of the frontier. The first one that does not is the next
    /// subject, announced by the size of the scan on both streams. With
    /// nothing left, both streams are finished, the current one first. After
    /// that nothing is emitted any more.
    pub open spec fn step(self) -> (RunView, StepView)
        decreases self.frontier.len(),
    {
        if self.finished {
            (self, StepView { messages: Seq::empty(), subject: None })
        } else if self.frontier.len() == 0 {
            (
                RunView { finished: true, ..self },
                StepView { messages: seq![finish_current(), finish_total()], subject: None },
            )
        } else {
            let url = self.frontier.last();
            let rest = RunView { frontier: self.frontier.drop_last(), ..self };
            if admissible(url, self.base_depth, self.recursion_depth) {
                (
                    rest,
                    StepView {
                        messages: seq![
                            set_total_size(self.progress_len),
                            set_current_size(self.progress_len),
                        ],
                        subject: Some(url),
                    },
                )
            } else {
                rest.step()
            }
        }
    }

    /// The state after a pass has handed in what it discovered: each URL
    /// joins the frontier and adds one wordlist to the size of the scan.
    pub open spec fn record(self, discovered: Seq<TargetUrlView>) -> RunView {
        if self.finished {
            self
        } else {
            RunView {
                frontier: self.frontier + discovered,
                progress_len: self.progress_len + discovered.len() * self.lines_len,
                ..self
            }
        }
    }

    /// The state after the scan has been given up.
    pub open spec fn abort(self) -> RunView {
        RunView { frontier: Seq::empty(), finished: true, ..self }
    }
}

/// What the driver asks for next: messages to emit and, unless the scan is
/// over, the URL to scan.
#[derive(Debug, Clone, PartialEq, Eq)]
pub struct RunStep {
    /// The messages to emit now, in order.
    pub messages: Vec<WorkerMessage>,
    /// The URL to scan now; `None` when the scan is over.
    pub subject: Option<TargetUrl>,
}

impl View for RunStep {
    type V = StepView;

    open spec fn view(&self) -> StepView {
        StepView {
            messages: views(self.messages@),
            subject: match self.subject {
                Some(url) => Some(url@),
                None => None,
            },
        }
    }
}

/// The recursion driver: the frontier of a scan and its running size.
#[derive(Debug, Clone, PartialEq, Eq)]
pub struct Run {
    frontier: Vec<TargetUrl>,
    base_depth: usize,
    recursion_depth: usize,
    lines_len: usize,
    progress_len: usize,
    finished: bool,
}

impl View for Run {
    type V = RunView;

    closed spec fn view(&self) -> RunView {
        RunView {
            frontier: url_views(self.frontier@),
            base_depth: self.base_depth as nat,
            recursion_depth: self.recursion_depth as nat,
            lines_len: self.lines_len as nat,
            progress_len: self.progress_len as nat,
            finished: self.finished,
        }
    }
}

impl Run {
    /// The state at the start of a scan from `base` over a wordlist of
    /// `lines_len` words: the frontier holds the base, and the scan is as
    /// large as one wordlist. A base without path segments has no depth, and
    /// no scan starts from it.
    pub fn start(base: &TargetUrl, recursion_depth: usize, lines_len: usize) -> (run: Option<Run>)
        ensures
            match run {
                Some(r) => base@.segments matches Some(depth) && r@ == RunView::start(
                    base@,
                    depth,
                    recursion_depth as nat,
                    lines_len as nat,
                ),
                None => base@.segments is None,
            },
    {
        match base.segments() {
            None => None,
            Some(base_depth) => {
                let mut frontier: Vec<TargetUrl> = Vec::new();
                frontier.push(base.clone());
                let run = Run {
                    frontier,
                    base_depth,
                    recursion_depth,
                    lines_len,
                    progress_len: lines_len,
                    finished: false,
                };
                assert(run@.frontier =~= seq![base@]);
                Some(run)
            },
        }
    }

    /// The announced size of the whole scan.
    pub fn progress_len(&self) -> (n: usize)
        ensures
            n == self@.progress_len,
    {
        self.progress_len
    }

    /// Length of the wordlist.
    pub fn lines_len(&self) -> (n: usize)
        ensures
            n == self@.lines_len,
    {
        self.lines_len
    }

    /// How many URLs wait for a scan.
    pub fn pending(&self) -> (n: usize)
        ensures
            n == self@.frontier.len(),
    {
        self.frontier.len()
    }

    /// Whether the end of the scan has been announced.
    pub fn is_finished(&self) -> (b: bool)
        ensures
            b == self@.finished,
    {
        self.finished
    }

    fn admits(&self, url: &TargetUrl) -> (b: bool)
        ensures
            b == admissible(url@, self@.base_depth, self@.recursion_depth),
    {
        match url.segments() {
            None => false,
            Some(n) => n <= self.base_depth || n - self.base_depth <= self.recursion_depth,
        }
    }

    /// Decides what comes next: the next URL to scan, with the messages that
    /// announce its pass, or the end of the scan.
    pub fn next(&mut self) -> (step: RunStep)
        ensures
            final(self)@ == old(self)@.step().0,
            step@ == old(self)@.step().1,
    {
        if self.finished {
            let step = RunStep { messages: Vec::new(), subject: None };
            assert(step@.messages =~= Seq::empty());
            return step;
        }
        loop
            invariant
                !self.finished,
                self@.step() == old(self)@.step(),
            decreases self.frontier.len(),
        {
            let ghost before = self@;
            match self.frontier.pop() {
                None => {
                    self.finished = true;
                    let mut messages: Vec<WorkerMessage> = Vec::new();
                    messages.push(WorkerMessage::finish_current());
                    messages.push(WorkerMessage::finish_total());
                    let step = RunStep { messages, subject: None };
                    assert(step@.messages =~= seq![finish_current(), finish_total()]);
                    return step;
                },
                Some(url) => {
                    assert(before.frontier.last() == url@);
                    assert(self@.frontier =~= before.frontier.drop_last());
                    if self.admits(&url) {
                        let mut messages: Vec<WorkerMessage> = Vec::new();
                        messages.push(WorkerMessage::set_total_size(self.progress_len));
                        messages.push(WorkerMessage::set_current_size(self.progress_len));
                        let step = RunStep { messages, subject: Some(url) };
                        assert(step@.messages =~= seq![
                            set_total_size(before.progress_len),
                            set_current_size(before.progress_len),
                        ]);
                        return step;
                    }
                },
            }
        }
    }

    /// Takes in what a pass discovered: the URLs join the frontier, and the
    /// size of the scan grows by one wordlist for each of them. After the end
    /// of the scan nothing changes any more.
    pub fn record(&mut self, discovered: Vec<TargetUrl>)
        requires
            !old(self)@.finished ==> old(self)@.progress_len + discovered@.len() * old(
                self,
            )@.lines_len <= usize::MAX,
        ensures
            final(self)@ == old(self)@.record(url_views(discovered@)),
    {
        if self.finished {
            return ;
        }
        let mut discovered = discovered;
        let ghost found = discovered@;
        let ghost before = self.frontier@;
        assert(discovered.len() * self.lines_len <= usize::MAX) by (nonlinear_arith)
            requires
                self.progress_len + discovered.len() * self.lines_len <= usize::MAX,
                self.progress_len >= 0,
        ;
        self.progress_len = self.progress_len + discovered.len() * self.lines_len;
        self.frontier.append(&mut discovered);
        assert(url_views(self.frontier@) =~= url_views(before) + url_views(found));
    }

    /// Takes in what a pass discovered, unless the size of the scan would
    /// leave the range of `usize`; then nothing changes, and the answer is
    /// `false`.
    pub fn try_record(&mut self, discovered: Vec<TargetUrl>) -> (done: bool)
        ensures
            done == (old(self)@.finished || old(self)@.progress_len + discovered@.len() * old(
                self,
            )@.lines_len <= usize::MAX),
            done ==> final(self)@ == old(self)@.record(url_views(discovered@)),
            !done ==> final(self)@ == old(self)@,
    {
        if self.finished {
            return true;
        }
        match discovered.len().checked_mul(self.lines_len) {
            None => false,
            Some(grown) => match grown.checked_add(self.progress_len) {
                None => false,
                Some(_) => {
                    self.record(discovered);
                    true
                },
            },
        }
    }

    /// Gives the scan up: nothing waits any more, and nothing further is
    /// announced.
    pub fn abort(&mut self)
        ensures
            final(self)@ == old(self)@.abort(),
    {
        self.frontier = Vec::new();
        self.finished = true;
        assert(url_views(self.frontier@) =~= Seq::empty());
    }
}

/// How the worker of one slice ended.
#[derive(Debug, Clone, PartialEq, Eq)]
pub enum SliceOutcome {
    /// It went through its slice and discovered these URLs.
    Completed(Vec<TargetUrl>),
    /// It reported an error.
    Failed(BusterError),
    /// It ended abnormally; the text is what is known of the cause.
    Panicked(String),
}

/// Mathematical value of a [`SliceOutcome`].
pub enum SliceView {
    Completed(Seq<TargetUrlView>),
    Failed(BusterErrorView),
    Panicked(Seq<char>),
}

impl View for SliceOutcome {
    type V = SliceView;

    open spec fn view(&self) -> SliceView {
        match self {
            SliceOutcome::Completed(urls) => SliceView::Completed(url_views(urls@)),
            SliceOutcome::Failed(error) => SliceView::Failed(error@),
            SliceOutcome::Panicked(info) => SliceView::Panicked(info@),
        }
    }
}

/// The views of a list of slice outcomes.
pub open spec fn slice_views(outcomes: Seq<SliceOutcome>) -> Seq<SliceView> {
    outcomes.map_values(|o: SliceOutcome| o@)
}

/// Text logged for a worker that ended abnormally.
pub open spec fn panic_text(info: Seq<char>) -> Seq<char> {
    "Panic in thread: "@ + info
}

/// What one worker adds to the discoveries of a pass.
pub open spec fn slice_urls(outcome: SliceView) -> Seq<TargetUrlView> {
    match outcome {
        SliceView::Completed(urls) => urls,
        _ => Seq::empty(),
    }
}

/// What is logged when one worker is joined.
pub open spec fn slice_messages(outcome: SliceView) -> Seq<MessageView> {
    match outcome {
        SliceView::Completed(_) => Seq::empty(),
        SliceView::Failed(error) => seq![MessageView::Log(LogLevel::ERROR, error_text(error))],
        SliceView::Panicked(info) => seq![MessageView::Log(LogLevel::CRITICAL, panic_text(info))],
    }
}

/// The discoveries of a pass: those of its workers, in slice order.
pub open spec fn collected_urls(outcomes: Seq<SliceView>) -> Seq<TargetUrlView>
    decreases outcomes.len(),
{
    if outcomes.len() == 0 {
        Seq::empty()
    } else {
        collected_urls(outcomes.drop_last()) + slice_urls(outcomes.last())
    }
}

/// What is logged when the workers of a pass are joined, in slice order.
pub open spec fn collected_messages(outcomes: Seq<SliceView>) -> Seq<MessageView>
    decreases outcomes.len(),
{
    if outcomes.len() == 0 {
        Seq::empty()
    } else {
        collected_messages(outcomes.drop_last()) + slice_messages(outcomes.last())
    }
}

/// What a pass leaves behind once its workers are joined.
#[derive(Debug, Clone, PartialEq, Eq)]
pub struct PassReport {
    /// The URLs discovered, in slice order.
    pub discovered: Vec<TargetUrl>,
    /// The messages to emit, in slice order.
    pub messages: Vec<WorkerMessage>,
}

fn panic_line(info: &str) -> (s: String)
    ensures
        s@ == panic_text(info@),
{
    let mut s = String::from_str("Panic in thread: ");
    s.append(info);
    s
}

/// Joins the outcomes of the workers of a pass, in slice order: a worker
/// that completed adds its discoveries, one that failed is logged as an
/// error, one that ended abnormally as critical. The others are not touched
/// by either.
pub fn collect(outcomes: &Vec<SliceOutcome>) -> (report: PassReport)
    ensures
        url_views(report.discovered@) == collected_urls(slice_views(outcomes@)),
        views(report.messages@) == collected_messages(slice_views(outcomes@)),
{
    let mut discovered: Vec<TargetUrl> = Vec::new();
    let mut messages: Vec<WorkerMessage> = Vec::new();
    let mut i: usize = 0;
    assert(slice_views(outcomes@).take(0) =~= Seq::empty());
    assert(url_views(discovered@) =~= Seq::empty());
    assert(views(messages@) =~= Seq::empty());
    while i < outcomes.len()
        invariant
            i <= outcomes.len(),
            url_views(discovered@) == collected_urls(slice_views(outcomes@).take(i as int)),
            views(messages@) == collected_messages(slice_views(outcomes@).take(i as int)),
        decreases outcomes.len() - i,
    {
        let ghost done = slice_views(outcomes@).take(i as int);
        let ghost now = slice_views(outcomes@).take(i + 1);
        assert(now.drop_last() =~= done);
        assert(now.last() == outcomes@[i as int]@);
        let ghost urls_before = url_views(discovered@);
        let ghost messages_before = views(messages@);
        match &outcomes[i] {
            SliceOutcome::Completed(urls) => {
                let mut j: usize = 0;
                while j < urls.len()
                    invariant
                        j <= urls.len(),
                        url_views(discovered@) == urls_before + url_views(urls@).take(j as int),
                    decreases urls.len() - j,
                {
                    let ghost taken = discovered@;
                    discovered.push(urls[j].clone());
                    assert(url_views(discovered@) =~= url_views(taken).push(urls@[j as int]@));
                    assert(url_views(urls@).take(j + 1) =~= url_views(urls@).take(j as int).push(
                        urls@[j as int]@,
                    ));
                    j = j + 1;
                }
                assert(url_views(urls@).take(urls.len() as int) =~= url_views(urls@));
                assert(views(messages@) =~= messages_before + slice_messages(now.last()));
            },
            SliceOutcome::Failed(error) => {
                messages.push(WorkerMessage::log(LogLevel::ERROR, error.message()));
                assert(views(messages@) =~= messages_before + slice_messages(now.last()));
                assert(url_views(discovered@) =~= urls_before + slice_urls(now.last()));
            },
            SliceOutcome::Panicked(info) => {
                messages.push(WorkerMessage::log(LogLevel::CRITICAL, panic_line(info.as_str())));
                assert(views(messages@) =~= messages_before + slice_messages(now.last()));
                assert(url_views(discovered@) =~= urls_before + slice_urls(now.last()));
            },
        }
        i = i + 1;
    }
    assert(slice_views(outcomes@).take(outcomes.len() as int) =~= slice_views(outcomes@));
    PassReport { discovered, messages }
}

/// Mathematical value of a [`Worker`].
pub struct WorkerView {
    pub threads: nat,
    pub recursion_depth: nat,
    pub timeout: nat,
    pub wordlist_path: Seq<char>,
    pub uri: TargetUrlView,
    pub message_sender: Arc<Sender<WorkerMessage>>,
    pub proxy_uri: Option<TargetUrlView>,
}

/// The engine: a validated configuration of one scan.
#[derive(Debug)]
pub struct Worker {
    threads: usize,
    recursion_depth: usize,
    timeout: usize,
    wordlist_path: String,
    uri: TargetUrl,
    message_sender: Arc<Sender<WorkerMessage>>,
    proxy_uri: Option<TargetUrl>,
}

impl View for Worker {
    type V = WorkerView;

    closed spec fn view(&self) -> WorkerView {
        WorkerView {
            threads: self.threads as nat,
            recursion_depth: self.recursion_depth as nat,
            timeout: self.timeout as nat,
            wordlist_path: self.wordlist_path@,
            uri: self.uri@,
            message_sender: self.message_sender,
            proxy_uri: match self.proxy_uri {
                Some(url) => Some(url@),
                None => None,
            },
        }
    }
}

impl Worker {
    #[verifier::type_invariant]
    spec fn has_threads(&self) -> bool {
        self.threads >= 1
    }

    /// An engine with `threads` workers. A pool needs at least one.
    pub fn new(
        threads: usize,
        recursion_depth: usize,
        timeout: usize,
        wordlist: String,
        uri: TargetUrl,
        message_sender: Arc<Sender<WorkerMessage>>,
        proxy_uri: Option<TargetUrl>,
    ) -> (worker: Worker)
        requires
            threads >= 1,
        ensures
            worker@ == (WorkerView {
                threads: threads as nat,
                recursion_depth: recursion_depth as nat,
                timeout: timeout as nat,
                wordlist_path: wordlist@,
                uri: uri@,
                message_sender,
                proxy_uri: match proxy_uri {
                    Some(url) => Some(url@),
                    None => None,
                },
            }),
    {
        Worker {
            threads,
            recursion_depth,
            timeout,
            wordlist_path: wordlist,
            uri,
            message_sender,
            proxy_uri,
        }
    }

    /// Size of the pool; at least one.
    pub fn threads(&self) -> (n: usize)
        ensures
            n == self@.threads,
            n >= 1,
    {
        proof {
            use_type_invariant(self);
        }
        self.threads
    }

    /// How many segments below the base a scanned URL may lie.
    pub fn recursion_depth(&self) -> (n: usize)
        ensures
            n == self@.recursion_depth,
    {
        self.recursion_depth
    }

    /// Time allowed for one request, in seconds.
    pub fn timeout(&self) -> (n: usize)
        ensures
            n == self@.timeout,
    {
        self.timeout
    }

    /// Path of the wordlist file.
    pub fn wordlist_path(&self) -> (path: &str)
        ensures
            path@ == self@.wordlist_path,
    {
        self.wordlist_path.as_str()
    }

    /// The base URL.
    pub fn uri(&self) -> (url: &TargetUrl)
        ensures
            url@ == self@.uri,
    {
        &self.uri
    }

    /// The proxy to send requests through, if one is set.
    pub fn proxy_uri(&self) -> (url: Option<&TargetUrl>)
        ensures
            match url {
                Some(u) => self@.proxy_uri == Some(u@),
                None => self@.proxy_uri is None,
            },
    {
        self.proxy_uri.as_ref()
    }

    /// The channel end through which the messages of a scan are to be sent.
    pub fn message_sender(&self) -> (sender: &Arc<Sender<WorkerMessage>>)
        ensures
            *sender == self@.message_sender,
    {
        &self.message_sender
    }

    /// Starts a scan over a wordlist of `lines_len` words: the frontier holds
    /// the base URL, and the scan is as large as one wordlist. A base URL
    /// without path segments has no depth, and no scan starts from it.
    pub fn run(&self, lines_len: usize) -> (run: Option<Run>)
        ensures
            match run {
                Some(r) => self@.uri.segments matches Some(depth) && r@ == RunView::start(
                    self@.uri,
                    depth,
                    self@.recursion_depth,
                    lines_len as nat,
                ),
                None => self@.uri.segments is None,
            },
    {
        Run::start(&self.uri, self.recursion_depth, lines_len)
    }

    /// Cuts a wordlist of `lines_len` words for the pool: one slice for each
    /// worker, each given by its first index and the index behind its last.
    pub fn execute(&self, lines_len: usize) -> (slices: Vec<(usize, usize)>)
        ensures
            slices@.len() == self@.threads,
            forall|i: int|
                0 <= i < slices@.len() ==> (#[trigger] slices@[i]).0 == slice_start(
                    lines_len as nat,
                    self@.threads,
                    i as nat,
                ) && slices@[i].1 == slice_end(lines_len as nat, self@.threads, i as nat)
                    && slices@[i].0 <= slices@[i].1 <= lines_len,
    {
        proof {
            use_type_invariant(self);
        }
        slice_plan(lines_len, self.threads)
    }
}

} // verus!
