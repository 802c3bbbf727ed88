use crate::logger::traits::LogLevel;
use vstd::prelude::*;

verus! {

/// One change to a progress stream.
#[derive(Debug, Clone, PartialEq, Eq)]
pub enum ProgressChangeMessage {
    SetMessage(String),
    SetSize(usize),
    Start(usize),
    Advance,
    Print(String),
    Finish,
}

/// A change, addressed to one of the two progress streams.
#[derive(Debug, Clone, PartialEq, Eq)]
pub enum ProgressMessage {
    Total(ProgressChangeMessage),
    Current(ProgressChangeMessage),
}

/// An event that the engine hands to its observer.
#[derive(Debug, Clone, PartialEq, Eq)]
pub enum WorkerMessage {
    Progress(ProgressMessage),
    Log(LogLevel, String),
}

/// Mathematical value of a [`ProgressChangeMessage`].
pub enum ChangeView {
    SetMessage(Seq<char>),
    SetSize(nat),
    Start(nat),
    Advance,
    Print(Seq<char>),
    Finish,
}

/// Mathematical value of a [`ProgressMessage`].
pub enum ProgressView {
    Total(ChangeView),
    Current(ChangeView),
}

/// Mathematical value of a [`WorkerMessage`].
pub enum MessageView {
    Progress(ProgressView),
    Log(LogLevel, Seq<char>),
}

impl View for ProgressChangeMessage {
    type V = ChangeView;

    open spec fn view(&self) -> ChangeView {
        match self {
            ProgressChangeMessage::SetMessage(s) => ChangeView::SetMessage(s@),
            ProgressChangeMessage::SetSize(n) => ChangeView::SetSize(*n as nat),
            ProgressChangeMessage::Start(n) => ChangeView::Start(*n as nat),
            ProgressChangeMessage::Advance => ChangeView::Advance,
            ProgressChangeMessage::Print(s) => ChangeView::Print(s@),
            ProgressChangeMessage::Finish => ChangeView::Finish,
        }
    }
}

impl View for ProgressMessage {
    type V = ProgressView;

    open spec fn view(&self) -> ProgressView {
        match self {
            ProgressMessage::Total(c) => ProgressView::Total(c@),
            ProgressMessage::Current(c) => ProgressView::Current(c@),
        }
    }
}

impl View for WorkerMessage {
    type V = MessageView;

    open spec fn view(&self) -> MessageView {
        match self {
            WorkerMessage::Progress(p) => MessageView::Progress(p@),
            WorkerMessage::Log(level, text) => MessageView::Log(*level, text@),
        }
    }
}

impl WorkerMessage {
    /// The total stream is given a new size.
    pub fn set_total_size(size: usize) -> (m: WorkerMessage)
        ensures
            m@ == MessageView::Progress(ProgressView::Total(ChangeView::SetSize(size as nat))),
    {
        WorkerMessage::Progress(ProgressMessage::Total(ProgressChangeMessage::SetSize(size)))
    }

    /// The current stream is given a new size.
    pub fn set_current_size(size: usize) -> (m: WorkerMessage)
        ensures
            m@ == MessageView::Progress(ProgressView::Current(ChangeView::SetSize(size as nat))),
    {
        WorkerMessage::Progress(ProgressMessage::Current(ProgressChangeMessage::SetSize(size)))
    }

    /// The total stream is finished.
    pub fn finish_total() -> (m: WorkerMessage)
        ensures
            m@ == MessageView::Progress(ProgressView::Total(ChangeView::Finish)),
    {
        WorkerMessage::Progress(ProgressMessage::Total(ProgressChangeMessage::Finish))
    }

    /// The current stream is finished.
    pub fn finish_current() -> (m: WorkerMessage)
        ensures
            m@ == MessageView::Progress(ProgressView::Current(ChangeView::Finish)),
    {
        WorkerMessage::Progress(ProgressMessage::Current(ProgressChangeMessage::Finish))
    }

    /// A log record.
    pub fn log(level: LogLevel, str: String) -> (m: WorkerMessage)
        ensures
            m@ == MessageView::Log(level, str@),
    {
        WorkerMessage::Log(level, str)
    }

    /// The current stream advances by one.
    pub fn advance_current() -> (m: WorkerMessage)
        ensures
            m@ == MessageView::Progress(ProgressView::Current(ChangeView::Advance)),
    {
        WorkerMessage::Progress(ProgressMessage::Current(ProgressChangeMessage::Advance))
    }

    /// The total stream advances by one.
    pub fn advance_total() -> (m: WorkerMessage)
        ensures
            m@ == MessageView::Progress(ProgressView::Total(ChangeView::Advance)),
    {
        WorkerMessage::Progress(ProgressMessage::Total(ProgressChangeMessage::Advance))
    }
}

} // verus!
