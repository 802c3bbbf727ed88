use crate::worker::messages::WorkerMessage;
use crate::worker::target::{url_parse, TargetUrl, TargetUrlView};
use crate::worker::unit::{Worker, WorkerView};
use std::sync::mpsc::Sender;
use std::sync::Arc;
use url::ParseError;
use vstd::prelude::*;
use vstd::string::*;

verus! {

pub const DEFAULT_THREADS_NUMBER: usize = 50;

pub const DEFAULT_RECURSIVE_MODE: usize = 0;

pub const DEFAULT_TIMEOUT: usize = 5;

/// Why a configuration gives no engine.
#[derive(Debug, PartialEq, Eq)]
pub enum BuilderError {
    /// A URL did not parse.
    UrlParseError(ParseError),
    /// No base URL was given.
    TargetNotSpecified,
    /// No wordlist was given.
    WordlistNotSpecified,
    /// The path of the wordlist is not UTF-8 text.
    InvalidFilePath,
    /// Nothing exists at the path of the wordlist.
    FileNotFound(String),
    /// What exists at the path of the wordlist is not a regular file.
    NotAFile(String),
    /// No channel end was given.
    SenderChannelNotSpecified,
    /// A pool of no workers was asked for.
    InvalidThreadsNumber,
}

/// Mathematical value of a [`BuilderError`].
pub enum BuilderErrorView {
    UrlParseError(ParseError),
    TargetNotSpecified,
    WordlistNotSpecified,
    InvalidFilePath,
    FileNotFound(Seq<char>),
    NotAFile(Seq<char>),
    SenderChannelNotSpecified,
    InvalidThreadsNumber,
}

impl View for BuilderError {
    type V = BuilderErrorView;

    open spec fn view(&self) -> BuilderErrorView {
        match self {
            BuilderError::UrlParseError(e) => BuilderErrorView::UrlParseError(*e),
            BuilderError::TargetNotSpecified => BuilderErrorView::TargetNotSpecified,
            BuilderError::WordlistNotSpecified => BuilderErrorView::WordlistNotSpecified,
            BuilderError::InvalidFilePath => BuilderErrorView::InvalidFilePath,
            BuilderError::FileNotFound(path) => BuilderErrorView::FileNotFound(path@),
            BuilderError::NotAFile(path) => BuilderErrorView::NotAFile(path@),
            BuilderError::SenderChannelNotSpecified => BuilderErrorView::SenderChannelNotSpecified,
            BuilderError::InvalidThreadsNumber => BuilderErrorView::InvalidThreadsNumber,
        }
    }
}

impl Clone for BuilderError {
    fn clone(&self) -> (e: BuilderError)
        ensures
            e@ == self@,
    {
        match self {
            BuilderError::UrlParseError(e) => BuilderError::UrlParseError(*e),
            BuilderError::TargetNotSpecified => BuilderError::TargetNotSpecified,
            BuilderError::WordlistNotSpecified => BuilderError::WordlistNotSpecified,
            BuilderError::InvalidFilePath => BuilderError::InvalidFilePath,
            BuilderError::FileNotFound(path) => BuilderError::FileNotFound(path.clone()),
            BuilderError::NotAFile(path) => BuilderError::NotAFile(path.clone()),
            BuilderError::SenderChannelNotSpecified => BuilderError::SenderChannelNotSpecified,
            BuilderError::InvalidThreadsNumber => BuilderError::InvalidThreadsNumber,
        }
    }
}

impl vstd::std_specs::convert::FromSpecImpl<ParseError> for BuilderError {
    open spec fn obeys_from_spec() -> bool {
        true
    }

    open spec fn from_spec(e: ParseError) -> BuilderError {
        BuilderError::UrlParseError(e)
    }
}

impl From<ParseError> for BuilderError {
    fn from(e: ParseError) -> (r: BuilderError) {
        BuilderError::UrlParseError(e)
    }
}

/// What the file system says of the path of a wordlist.
#[derive(Debug, Clone, Copy, PartialEq, Eq, Structural)]
pub struct PathStatus {
    /// Something exists at the path.
    pub exists: bool,
    /// It is a regular file.
    pub is_file: bool,
    /// The path is UTF-8 text.
    pub is_utf8: bool,
}

/// The first reason, if any, to refuse a wordlist.
pub open spec fn wordlist_failure(path: Seq<char>, status: PathStatus) -> Option<BuilderErrorView> {
    if !status.exists {
        Some(BuilderErrorView::FileNotFound(path))
    } else if !status.is_file {
        Some(BuilderErrorView::NotAFile(path))
    } else if !status.is_utf8 {
        Some(BuilderErrorView::InvalidFilePath)
    } else {
        None
    }
}

/// Mathematical value of a [`WorkerBuilder`].
pub struct BuilderView {
    pub threads: Option<usize>,
    pub recursion: Option<usize>,
    pub timeout: Option<usize>,
    pub wordlist: Option<Seq<char>>,
    pub uri: Option<TargetUrlView>,
    pub proxy_uri: Option<TargetUrlView>,
    /// The first validation error met; once set it stays.
    pub error: Option<BuilderErrorView>,
    pub message_sender: Option<Arc<Sender<WorkerMessage>>>,
}

impl BuilderView {
    /// The builder on which nothing has been set.
    pub open spec fn empty() -> BuilderView {
        BuilderView {
            threads: None,
            recursion: None,
            timeout: None,
            wordlist: None,
            uri: None,
            proxy_uri: None,
            error: None,
            message_sender: None,
        }
    }

    /// The first reason, if any, for which no engine is built: the latched
    /// error, then what is missing, then a pool of no workers.
    pub open spec fn failure(self) -> Option<BuilderErrorView> {
        if self.error is Some {
            self.error
        } else if self.uri is None {
            Some(BuilderErrorView::TargetNotSpecified)
        } else if self.wordlist is None {
            Some(BuilderErrorView::WordlistNotSpecified)
        } else if self.message_sender is None {
            Some(BuilderErrorView::SenderChannelNotSpecified)
        } else if self.threads == Some(0usize) {
            Some(BuilderErrorView::InvalidThreadsNumber)
        } else {
            None
        }
    }

    /// The engine that is built where nothing stands against it: what was
    /// set, and the defaults for the rest.
    pub open spec fn built(self) -> WorkerView
        recommends
            self.failure() is None,
    {
        WorkerView {
            threads: match self.threads {
                Some(n) => n as nat,
                None => DEFAULT_THREADS_NUMBER as nat,
            },
            recursion_depth: match self.recursion {
                Some(n) => n as nat,
                None => DEFAULT_RECURSIVE_MODE as nat,
            },
            timeout: match self.timeout {
                Some(n) => n as nat,
                None => DEFAULT_TIMEOUT as nat,
            },
            wordlist_path: self.wordlist->0,
            uri: self.uri->0,
            message_sender: self.message_sender->0,
            proxy_uri: self.proxy_uri,
        }
    }

    /// What a setter may do to a builder on which an error is latched:
    /// nothing but replace the channel end.
    pub open spec fn latched_kept(self, after: BuilderView) -> bool {
        self.error is Some ==> after == (BuilderView {
            message_sender: after.message_sender,
            ..self
        })
    }
}

/// A latched error outlives any number of setter calls: where each state
/// follows from the one before it as a setter allows, every state holds the
/// error of the first, and none of the validated settings has changed.
pub proof fn lemma_latched_error_stays(states: Seq<BuilderView>)
    requires
        states.len() >= 1,
        states[0].error is Some,
        forall|i: int| 0 <= i < states.len() - 1 ==> (#[trigger] states[i]).latched_kept(states[i + 1]),
    ensures
        forall|i: int|
            0 <= i < states.len() ==> (#[trigger] states[i]).error == states[0].error
                && states[i].failure() == states[0].error && states[i].threads == states[0].threads
                && states[i].recursion == states[0].recursion && states[i].timeout
                == states[0].timeout && states[i].wordlist == states[0].wordlist && states[i].uri
                == states[0].uri && states[i].proxy_uri == states[0].proxy_uri,
    decreases states.len(),
{
    if states.len() > 1 {
        let front = states.drop_last();
        assert forall|i: int| 0 <= i < front.len() - 1 implies (#[trigger] front[i]).latched_kept(
            front[i + 1],
        ) by {
            assert(states[i].latched_kept(states[i + 1]));
        }
        lemma_latched_error_stays(front);
        let k = states.len() - 2;
        assert(front[k] == states[k]);
        assert(states[k].latched_kept(states[k + 1]));
        assert forall|i: int| 0 <= i < states.len() implies (#[trigger] states[i]).error
            == states[0].error && states[i].failure() == states[0].error && states[i].threads
            == states[0].threads && states[i].recursion == states[0].recursion && states[i].timeout
            == states[0].timeout && states[i].wordlist == states[0].wordlist && states[i].uri
            == states[0].uri && states[i].proxy_uri == states[0].proxy_uri by {
            if i < states.len() - 1 {
                assert(front[i] == states[i]);
            }
        }
    }
}

/// A configuration in the making. Each setter validates what it is given;
/// the first error is latched, and from then on the validating setters
/// change nothing.
#[derive(Debug, Clone)]
pub struct WorkerBuilder {
    pub threads: Option<usize>,
    pub recursion: Option<usize>,
    pub timeout: Option<usize>,
    pub wordlist: Option<String>,
    pub uri: Option<TargetUrl>,
    pub proxy_uri: Option<TargetUrl>,
    error: Option<BuilderError>,
    message_sender: Option<Arc<Sender<WorkerMessage>>>,
}

impl View for WorkerBuilder {
    type V = BuilderView;

    closed spec fn view(&self) -> BuilderView {
        BuilderView {
            threads: self.threads,
            recursion: self.recursion,
            timeout: self.timeout,
            wordlist: match self.wordlist {
                Some(path) => Some(path@),
                None => None,
            },
            uri: match self.uri {
                Some(url) => Some(url@),
                None => None,
            },
            proxy_uri: match self.proxy_uri {
                Some(url) => Some(url@),
                None => None,
            },
            error: match self.error {
                Some(e) => Some(e@),
                None => None,
            },
            message_sender: self.message_sender,
        }
    }
}

impl Default for WorkerBuilder {
    fn default() -> (builder: WorkerBuilder)
        ensures
            builder@ == BuilderView::empty(),
    {
        WorkerBuilder {
            threads: None,
            recursion: None,
            timeout: None,
            wordlist: None,
            uri: None,
            proxy_uri: None,
            error: None,
            message_sender: None,
        }
    }
}

impl WorkerBuilder {
    /// The latched error itself.
    pub closed spec fn latched(&self) -> Option<BuilderError> {
        self.error
    }

    /// A builder on which nothing is set.
    pub fn new() -> (builder: WorkerBuilder)
        ensures
            builder@ == BuilderView::empty(),
    {
        WorkerBuilder {
            threads: None,
            recursion: None,
            timeout: None,
            wordlist: None,
            uri: None,
            proxy_uri: None,
            error: None,
            message_sender: None,
        }
    }

    /// Whether an error is latched.
    pub fn has_error(&self) -> (b: bool)
        ensures
            b == self@.error is Some,
    {
        self.error.is_some()
    }

    /// Sets the size of the pool. A pool of no workers is an error.
    pub fn threads(self, threads: usize) -> (builder: WorkerBuilder)
        ensures
            self@.latched_kept(builder@),
            self@.error is Some ==> builder@ == self@,
            self@.error is None && threads == 0 ==> builder@ == (BuilderView {
                error: Some(BuilderErrorView::InvalidThreadsNumber),
                ..self@
            }),
            self@.error is None && threads > 0 ==> builder@ == (BuilderView {
                threads: Some(threads),
                ..self@
            }),
    {
        let mut builder = self;
        if builder.error.is_some() {
            return builder;
        }
        if threads == 0 {
            builder.error = Some(BuilderError::InvalidThreadsNumber);
            return builder;
        }
        builder.threads = Some(threads);
        builder
    }

    /// Sets the channel end through which the messages of a scan are sent,
    /// whether or not an error is latched.
    pub fn message_sender(self, sender: Arc<Sender<WorkerMessage>>) -> (builder: WorkerBuilder)
        ensures
            self@.latched_kept(builder@),
            builder@ == (BuilderView { message_sender: Some(sender), ..self@ }),
    {
        let mut builder = self;
        builder.message_sender = Some(sender);
        builder
    }

    /// Sets how many segments below the base a scanned URL may lie.
    pub fn recursive(self, recursive: usize) -> (builder: WorkerBuilder)
        ensures
            self@.latched_kept(builder@),
            self@.error is Some ==> builder@ == self@,
            self@.error is None ==> builder@ == (BuilderView {
                recursion: Some(recursive),
                ..self@
            }),
    {
        let mut builder = self;
        if builder.error.is_some() {
            return builder;
        }
        builder.recursion = Some(recursive);
        builder
    }

    /// Sets the time allowed for one request, in seconds.
    pub fn timeout(self, timeout: usize) -> (builder: WorkerBuilder)
        ensures
            self@.latched_kept(builder@),
            self@.error is Some ==> builder@ == self@,
            self@.error is None ==> builder@ == (BuilderView { timeout: Some(timeout), ..self@ }),
    {
        let mut builder = self;
        if builder.error.is_some() {
            return builder;
        }
        builder.timeout = Some(timeout);
        builder
    }

    /// Sets the path of the wordlist, given what the file system says of it.
    /// The path must exist, be a regular file and be UTF-8 text; the first of
    /// these that fails is latched as an error.
    pub fn wordlist(self, wordlist_path: &str, status: PathStatus) -> (builder: WorkerBuilder)
        ensures
            self@.latched_kept(builder@),
            self@.error is Some ==> builder@ == self@,
            self@.error is None ==> builder@ == (match wordlist_failure(wordlist_path@, status) {
                Some(e) => BuilderView { error: Some(e), ..self@ },
                None => BuilderView { wordlist: Some(wordlist_path@), ..self@ },
            }),
    {
        let mut builder = self;
        if builder.error.is_some() {
            return builder;
        }
        if !status.exists {
            builder.error = Some(BuilderError::FileNotFound(String::from_str(wordlist_path)));
            return builder;
        }
        if !status.is_file {
            builder.error = Some(BuilderError::NotAFile(String::from_str(wordlist_path)));
            return builder;
        }
        if !status.is_utf8 {
            builder.error = Some(BuilderError::InvalidFilePath);
            return builder;
        }
        builder.wordlist = Some(String::from_str(wordlist_path));
        builder
    }

    /// Sets the base URL. A text that does not parse as an absolute URL is
    /// latched as an error.
    pub fn uri(self, uri: &str) -> (builder: WorkerBuilder)
        ensures
            self@.latched_kept(builder@),
            self@.error is Some ==> builder@ == self@,
            self@.error is None ==> match url_parse(uri@) {
                Some(url) => builder@ == (BuilderView { uri: Some(url), ..self@ }),
                None => builder@.error matches Some(BuilderErrorView::UrlParseError(_))
                    && builder@ == (BuilderView { error: builder@.error, ..self@ }),
            },
    {
        if self.error.is_some() {
            return self;
        }
        self.parsed_uri(TargetUrl::parse(uri))
    }

    /// Takes in the parser's answer for the base URL: a URL is set, an error
    /// is latched.
    pub fn parsed_uri(self, parsed: Result<TargetUrl, ParseError>) -> (builder: WorkerBuilder)
        ensures
            self@.latched_kept(builder@),
            self@.error is Some ==> builder@ == self@,
            self@.error is None ==> builder@ == (match parsed {
                Ok(url) => BuilderView { uri: Some(url@), ..self@ },
                Err(e) => BuilderView { error: Some(BuilderErrorView::UrlParseError(e)), ..self@ },
            }),
    {
        let mut builder = self;
        if builder.error.is_some() {
            return builder;
        }
        match parsed {
            Ok(url) => {
                builder.uri = Some(url);
            },
            Err(e) => {
                builder.error = Some(BuilderError::UrlParseError(e));
            },
        }
        builder
    }

    /// Sets the proxy. The empty text leaves it unset; any other text that
    /// does not parse as an absolute URL is latched as an error.
    pub fn proxy_url(self, proxy_uri: &str) -> (builder: WorkerBuilder)
        ensures
            self@.latched_kept(builder@),
            self@.error is Some || proxy_uri@.len() == 0 ==> builder@ == self@,
            self@.error is None && proxy_uri@.len() > 0 ==> match url_parse(proxy_uri@) {
                Some(url) => builder@ == (BuilderView { proxy_uri: Some(url), ..self@ }),
                None => builder@.error matches Some(BuilderErrorView::UrlParseError(_))
                    && builder@ == (BuilderView { error: builder@.error, ..self@ }),
            },
    {
        if self.error.is_some() || proxy_uri.is_empty() {
            return self;
        }
        self.parsed_proxy(TargetUrl::parse(proxy_uri))
    }

    /// Takes in the parser's answer for the proxy: a URL is set, an error is
    /// latched.
    pub fn parsed_proxy(self, parsed: Result<TargetUrl, ParseError>) -> (builder: WorkerBuilder)
        ensures
            self@.latched_kept(builder@),
            self@.error is Some ==> builder@ == self@,
            self@.error is None ==> builder@ == (match parsed {
                Ok(url) => BuilderView { proxy_uri: Some(url@), ..self@ },
                Err(e) => BuilderView { error: Some(BuilderErrorView::UrlParseError(e)), ..self@ },
            }),
    {
        let mut builder = self;
        if builder.error.is_some() {
            return builder;
        }
        match parsed {
            Ok(url) => {
                builder.proxy_uri = Some(url);
            },
            Err(e) => {
                builder.error = Some(BuilderError::UrlParseError(e));
            },
        }
        builder
    }

    /// Builds the engine, or says why there is none: the latched error if
    /// there is one, else the first of a missing base URL, a missing
    /// wordlist, a missing channel end and a pool of no workers.
    pub fn build(self) -> (r: Result<Worker, BuilderError>)
        ensures
            match r {
                Ok(worker) => self@.failure() is None && worker@ == self@.built(),
                Err(e) => self@.failure() == Some(e@),
            },
            self.latched() matches Some(e) ==> r == Err::<Worker, BuilderError>(e),
    {
        if let Some(err) = self.error {
            return Err(err);
        }
        let uri = match self.uri {
            Some(url) => url,
            None => {
                return Err(BuilderError::TargetNotSpecified);
            },
        };
        let threads: usize = match self.threads {
            Some(n) => n,
            None => DEFAULT_THREADS_NUMBER,
        };
        let recursion_depth: usize = match self.recursion {
            Some(n) => n,
            None => DEFAULT_RECURSIVE_MODE,
        };
        let timeout: usize = match self.timeout {
            Some(n) => n,
            None => DEFAULT_TIMEOUT,
        };
        let wordlist = match self.wordlist {
            Some(path) => path,
            None => {
                return Err(BuilderError::WordlistNotSpecified);
            },
        };
        let message_sender = match self.message_sender {
            Some(sender) => sender,
            None => {
                return Err(BuilderError::SenderChannelNotSpecified);
            },
        };
        if threads == 0 {
            return Err(BuilderError::InvalidThreadsNumber);
        }
        Ok(
            Worker::new(
                threads,
                recursion_depth,
                timeout,
                wordlist,
                uri,
                message_sender,
                self.proxy_uri,
            ),
        )
    }
}

} // verus!
