use crate::buster_messages::BusterMessage;
use crate::worker::slices::{slice_end, slice_plan, slice_start};
use crate::worker::target::{TargetUrl, TargetUrlView};
use crate::worker::unit::{Run, RunView};
use std::sync::mpsc::Sender;
use std::sync::Arc;
use vstd::prelude::*;
use vstd::string::*;

verus! {

/// An error that a worker reports instead of a list of discoveries.
#[derive(Debug, Clone, PartialEq, Eq)]
pub enum BusterError {
    RequestError(String),
}

/// Mathematical value of a [`BusterError`].
pub enum BusterErrorView {
    RequestError(Seq<char>),
}

impl View for BusterError {
    type V = BusterErrorView;

    open spec fn view(&self) -> BusterErrorView {
        match self {
            BusterError::RequestError(text) => BusterErrorView::RequestError(text@),
        }
    }
}

/// The text of an error, as it is logged.
pub open spec fn error_text(error: BusterErrorView) -> Seq<char> {
    match error {
        BusterErrorView::RequestError(text) => "Request error: "@ + text,
    }
}

impl BusterError {
    /// The text of the error, as it is logged.
    pub fn message(&self) -> (s: String)
        ensures
            s@ == error_text(self@),
    {
        match self {
            BusterError::RequestError(text) => {
                let mut s = String::from_str("Request error: ");
                s.append(text.as_str());
                s
            },
        }
    }
}

/// Mathematical value of a [`Buster`].
pub struct BusterView {
    pub threads: nat,
    pub recursion_depth: nat,
    pub timeout: nat,
    pub wordlist_path: Seq<char>,
    pub uri: TargetUrlView,
    pub message_sender: Arc<Sender<BusterMessage>>,
}

/// The engine for direct connections: a validated configuration of one
/// scan without a proxy, whose observer receives [`BusterMessage`]s.
#[derive(Debug)]
pub struct Buster {
    threads: usize,
    recursion_depth: usize,
    wordlist_path: String,
    message_sender: Arc<Sender<BusterMessage>>,
    uri: TargetUrl,
    timeout: usize,
}

impl View for Buster {
    type V = BusterView;

    closed spec fn view(&self) -> BusterView {
        BusterView {
            threads: self.threads as nat,
            recursion_depth: self.recursion_depth as nat,
            timeout: self.timeout as nat,
            wordlist_path: self.wordlist_path@,
            uri: self.uri@,
            message_sender: self.message_sender,
        }
    }
}

impl Buster {
    #[verifier::type_invariant]
    spec fn has_threads(&self) -> bool {
        self.threads >= 1
    }

    /// An engine with `threads` workers. A pool needs at least one.
    pub fn new(
        threads: usize,
        recursion_depth: usize,
        timeout: usize,
        wordlist: String,
        uri: TargetUrl,
        message_sender: Arc<Sender<BusterMessage>>,
    ) -> (buster: Buster)
        requires
            threads >= 1,
        ensures
            buster@ == (BusterView {
                threads: threads as nat,
                recursion_depth: recursion_depth as nat,
                timeout: timeout as nat,
                wordlist_path: wordlist@,
                uri: uri@,
                message_sender,
            }),
    {
        Buster { threads, recursion_depth, wordlist_path: wordlist, message_sender, uri, timeout }
    }

    /// Size of the pool; at least one.
    pub fn threads(&self) -> (n: usize)
        ensures
            n == self@.threads,
            n >= 1,
    {
        proof {
            use_type_invariant(self);
        }
        self.threads
    }

    /// Time allowed for one request, in seconds.
    pub fn timeout(&self) -> (n: usize)
        ensures
            n == self@.timeout,
    {
        self.timeout
    }

    /// Path of the wordlist file.
    pub fn wordlist_path(&self) -> (path: &str)
        ensures
            path@ == self@.wordlist_path,
    {
        self.wordlist_path.as_str()
    }

    /// The base URL.
    pub fn uri(&self) -> (url: &TargetUrl)
        ensures
            url@ == self@.uri,
    {
        &self.uri
    }

    /// The channel end through which the messages of a scan are to be sent.
    pub fn message_sender(&self) -> (sender: &Arc<Sender<BusterMessage>>)
        ensures
            *sender == self@.message_sender,
    {
        &self.message_sender
    }

    /// Starts a scan over a wordlist of `lines_len` words: the frontier holds
    /// the base URL, and the scan is as large as one wordlist. A base URL
    /// without path segments has no depth, and no scan starts from it.
    pub fn run(&self, lines_len: usize) -> (run: Option<Run>)
        ensures
            match run {
                Some(r) => self@.uri.segments matches Some(depth) && r@ == RunView::start(
                    self@.uri,
                    depth,
                    self@.recursion_depth,
                    lines_len as nat,
                ),
                None => self@.uri.segments is None,
            },
    {
        Run::start(&self.uri, self.recursion_depth, lines_len)
    }

    /// Cuts a wordlist of `lines_len` words for the pool: one slice for each
    /// worker, each given by its first index and the index behind its last.
    pub fn execute(&self, lines_len: usize) -> (slices: Vec<(usize, usize)>)
        ensures
            slices@.len() == self@.threads,
            forall|i: int|
                0 <= i < slices@.len() ==> (#[trigger] slices@[i]).0 == slice_start(
                    lines_len as nat,
                    self@.threads,
                    i as nat,
                ) && slices@[i].1 == slice_end(lines_len as nat, self@.threads, i as nat)
                    && slices@[i].0 <= slices@[i].1 <= lines_len,
    {
        proof {
            use_type_invariant(self);
        }
        slice_plan(lines_len, self.threads)
    }
}

} // verus!
