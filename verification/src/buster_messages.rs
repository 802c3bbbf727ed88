use crate::logger::traits::LogLevel;
use crate::worker::messages::{ChangeView, MessageView, ProgressView, WorkerMessage};
use vstd::prelude::*;

pub use crate::worker::messages::{ProgressChangeMessage, ProgressMessage};

verus! {

/// An event that a [`crate::buster::Buster`] hands to its observer.
#[derive(Debug, Clone, PartialEq, Eq)]
pub enum BusterMessage {
    Progress(ProgressMessage),
    Log(LogLevel, String),
}

impl View for BusterMessage {
    type V = MessageView;

    open spec fn view(&self) -> MessageView {
        match self {
            BusterMessage::Progress(p) => MessageView::Progress(p@),
            BusterMessage::Log(level, text) => MessageView::Log(*level, text@),
        }
    }
}

impl vstd::std_specs::convert::FromSpecImpl<WorkerMessage> for BusterMessage {
    open spec fn obeys_from_spec() -> bool {
        true
    }

    open spec fn from_spec(m: WorkerMessage) -> BusterMessage {
        match m {
            WorkerMessage::Progress(p) => BusterMessage::Progress(p),
            WorkerMessage::Log(level, text) => BusterMessage::Log(level, text),
        }
    }
}

impl From<WorkerMessage> for BusterMessage {
    /// The same event, word for word.
    fn from(m: WorkerMessage) -> (r: BusterMessage)
        ensures
            r@ == m@,
    {
        match m {
            WorkerMessage::Progress(p) => BusterMessage::Progress(p),
            WorkerMessage::Log(level, text) => BusterMessage::Log(level, text),
        }
    }
}

impl BusterMessage {
    /// The total stream is given a new size.
    pub fn set_total_size(size: usize) -> (m: BusterMessage)
        ensures
            m@ == MessageView::Progress(ProgressView::Total(ChangeView::SetSize(size as nat))),
    {
        BusterMessage::Progress(ProgressMessage::Total(ProgressChangeMessage::SetSize(size)))
    }

    /// The current stream is given a new size.
    pub fn set_current_size(size: usize) -> (m: BusterMessage)
        ensures
            m@ == MessageView::Progress(ProgressView::Current(ChangeView::SetSize(size as nat))),
    {
        BusterMessage::Progress(ProgressMessage::Current(ProgressChangeMessage::SetSize(size)))
    }

    /// The total stream is finished.
    pub fn finish_total() -> (m: BusterMessage)
        ensures
            m@ == MessageView::Progress(ProgressView::Total(ChangeView::Finish)),
    {
        BusterMessage::Progress(ProgressMessage::Total(ProgressChangeMessage::Finish))
    }

    /// The current stream is finished.
    pub fn finish_current() -> (m: BusterMessage)
        ensures
            m@ == MessageView::Progress(ProgressView::Current(ChangeView::Finish)),
    {
        BusterMessage::Progress(ProgressMessage::Current(ProgressChangeMessage::Finish))
    }

    /// A log record.
    pub fn log(level: LogLevel, str: String) -> (m: BusterMessage)
        ensures
            m@ == MessageView::Log(level, str@),
    {
        BusterMessage::Log(level, str)
    }

    /// The current stream advances by one.
    pub fn advance_current() -> (m: BusterMessage)
        ensures
            m@ == MessageView::Progress(ProgressView::Current(ChangeView::Advance)),
    {
        BusterMessage::Progress(ProgressMessage::Current(ProgressChangeMessage::Advance))
    }

    /// The total stream advances by one.
    pub fn advance_total() -> (m: BusterMessage)
        ensures
            m@ == MessageView::Progress(ProgressView::Total(ChangeView::Advance)),
    {
        BusterMessage::Progress(ProgressMessage::Total(ProgressChangeMessage::Advance))
    }
}

} // verus!
