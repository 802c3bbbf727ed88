use crate::logger::traits::LogLevel;
use crate::tui::app::{LOG_MAX, MESSAGES_MAX};
use crate::tui::widgets::field::{FieldState, FieldStateView, FieldType, FieldTypeView};
use crate::tui::widgets::path_hint::{texts, PathHintState, PathHintView};
use crate::worker::builder::{DEFAULT_RECURSIVE_MODE, DEFAULT_THREADS_NUMBER, DEFAULT_TIMEOUT};
use crate::worker::messages::{
    ChangeView, MessageView, ProgressChangeMessage, ProgressMessage, ProgressView, WorkerMessage,
};
use crate::worker::probe::{decimal, number_text};
use std::collections::VecDeque;
use vstd::prelude::*;
use vstd::string::*;

verus! {

/// What stands behind an entry of the list of workers.
#[derive(Debug, Clone, Copy, PartialEq, Eq, Structural)]
pub enum WorkerVariant {
    /// A scan; the flag says whether it is over.
    Worker(bool),
    /// A form that has not been run yet.
    Builder,
}

impl Default for WorkerVariant {
    fn default() -> (v: WorkerVariant)
        ensures
            v == WorkerVariant::Builder,
    {
        WorkerVariant::Builder
    }
}

/// The fields of the form, in the order in which they are shown.
#[derive(Debug, Clone, Copy, PartialEq, Eq, Structural)]
pub enum FieldName {
    Name,
    Uri,
    Threads,
    Recursion,
    Timeout,
    WordlistPath,
    ProxyUrl,
}

/// How many fields the form has.
pub const FIELDS_NUMBER: usize = 7;

impl Default for FieldName {
    fn default() -> (f: FieldName)
        ensures
            f == FieldName::Name,
    {
        FieldName::Name
    }
}

impl FieldName {
    /// Place of the field in the form, from 0.
    pub open spec fn position(self) -> nat {
        match self {
            FieldName::Name => 0,
            FieldName::Uri => 1,
            FieldName::Threads => 2,
            FieldName::Recursion => 3,
            FieldName::Timeout => 4,
            FieldName::WordlistPath => 5,
            FieldName::ProxyUrl => 6,
        }
    }

    /// The field at a place of the form.
    pub open spec fn at(position: nat) -> FieldName {
        if position == 0 {
            FieldName::Name
        } else if position == 1 {
            FieldName::Uri
        } else if position == 2 {
            FieldName::Threads
        } else if position == 3 {
            FieldName::Recursion
        } else if position == 4 {
            FieldName::Timeout
        } else if position == 5 {
            FieldName::WordlistPath
        } else {
            FieldName::ProxyUrl
        }
    }

    /// The field below, and the first one below the last.
    pub open spec fn following(self) -> FieldName {
        FieldName::at((self.position() + 1) % (FIELDS_NUMBER as nat))
    }

    /// The field above, and the last one above the first.
    pub open spec fn preceding(self) -> FieldName {
        FieldName::at(((self.position() + FIELDS_NUMBER - 1) % (FIELDS_NUMBER as int)) as nat)
    }

    /// Going down and up again, or up and down again, leads back; places
    /// and fields correspond one to one.
    pub proof fn lemma_round_trip(self)
        ensures
            self.following().preceding() == self,
            self.preceding().following() == self,
            FieldName::at(self.position()) == self,
            self.position() < FIELDS_NUMBER,
    {
    }

    /// Place of the field in the form, from 0.
    pub fn index(self) -> (i: usize)
        ensures
            i == self.position(),
            i < FIELDS_NUMBER,
    {
        match self {
            FieldName::Name => 0,
            FieldName::Uri => 1,
            FieldName::Threads => 2,
            FieldName::Recursion => 3,
            FieldName::Timeout => 4,
            FieldName::WordlistPath => 5,
            FieldName::ProxyUrl => 6,
        }
    }

    /// The field below, and the first one below the last.
    pub fn next(self) -> (f: FieldName)
        ensures
            f == self.following(),
    {
        match self {
            FieldName::Name => FieldName::Uri,
            FieldName::Uri => FieldName::Threads,
            FieldName::Threads => FieldName::Recursion,
            FieldName::Recursion => FieldName::Timeout,
            FieldName::Timeout => FieldName::WordlistPath,
            FieldName::WordlistPath => FieldName::ProxyUrl,
            FieldName::ProxyUrl => FieldName::Name,
        }
    }

    /// The field above, and the last one above the first.
    pub fn previous(self) -> (f: FieldName)
        ensures
            f == self.preceding(),
    {
        match self {
            FieldName::Name => FieldName::ProxyUrl,
            FieldName::Uri => FieldName::Name,
            FieldName::Threads => FieldName::Uri,
            FieldName::Recursion => FieldName::Threads,
            FieldName::Timeout => FieldName::Recursion,
            FieldName::WordlistPath => FieldName::Timeout,
            FieldName::ProxyUrl => FieldName::WordlistPath,
        }
    }

    /// Whether the field is the first of the form.
    pub fn is_first(self) -> (b: bool)
        ensures
            b == (self.position() == 0),
    {
        self == FieldName::Name
    }

    /// Whether the field is the last of the form.
    pub fn is_last(self) -> (b: bool)
        ensures
            b == (self.position() + 1 == FIELDS_NUMBER),
    {
        self == FieldName::ProxyUrl
    }
}

/// What is marked in the form: one of its fields, or the button that runs it.
#[derive(Debug, Clone, Copy, PartialEq, Eq, Structural)]
pub enum Selection {
    Field(FieldName),
    RunButton,
}

impl Default for Selection {
    fn default() -> (s: Selection)
        ensures
            s == Selection::Field(FieldName::Name),
    {
        Selection::Field(FieldName::Name)
    }
}

impl Selection {
    /// The mark one step down: from a field to the one below, from the last
    /// field to the button, from the button to the first field.
    pub open spec fn following(self) -> Selection {
        match self {
            Selection::Field(field) => if field == FieldName::ProxyUrl {
                Selection::RunButton
            } else {
                Selection::Field(field.following())
            },
            Selection::RunButton => Selection::Field(FieldName::Name),
        }
    }

    /// The mark one step up: from a field to the one above, from the first
    /// field to the button, from the button to the field of the wordlist.
    pub open spec fn preceding(self) -> Selection {
        match self {
            Selection::Field(field) => if field == FieldName::Name {
                Selection::RunButton
            } else {
                Selection::Field(field.preceding())
            },
            Selection::RunButton => Selection::Field(FieldName::WordlistPath),
        }
    }

    /// Moves the mark one step down.
    pub fn set_next(&mut self)
        ensures
            *final(self) == old(self).following(),
    {
        match *self {
            Selection::Field(field) => {
                if field.is_last() {
                    *self = Selection::RunButton;
                    return ;
                }
                *self = Selection::Field(field.next());
            },
            Selection::RunButton => {
                *self = Selection::Field(FieldName::Name);
            },
        }
    }

    /// Moves the mark one step up.
    pub fn set_previous(&mut self)
        ensures
            *final(self) == old(self).preceding(),
    {
        match *self {
            Selection::Field(field) => {
                if field.is_first() {
                    *self = Selection::RunButton;
                    return ;
                }
                *self = Selection::Field(field.previous());
            },
            Selection::RunButton => {
                *self = Selection::Field(FieldName::WordlistPath);
            },
        }
    }
}

/// What the panel of one worker shows: the form while the worker waits to
/// be run, and the state of its scan afterwards.
#[derive(Debug)]
pub struct WorkerState {
    pub worker: WorkerVariant,
    pub selection: Selection,
    pub current_parsing: String,
    pub log: VecDeque<String>,
    pub messages: VecDeque<String>,
    pub progress_current_total: usize,
    pub progress_current_now: usize,
    pub progress_all_total: usize,
    pub progress_all_now: usize,
    pub do_build: bool,
    pub fields_states: [FieldState; FIELDS_NUMBER],
    pub cursor_position: (u16, u16),
}

/// Mathematical value of a [`WorkerState`].
pub struct WorkerStateView {
    pub worker: WorkerVariant,
    pub selection: Selection,
    pub current_parsing: Seq<char>,
    pub log: Seq<Seq<char>>,
    pub messages: Seq<Seq<char>>,
    pub progress_current_total: nat,
    pub progress_current_now: nat,
    pub progress_all_total: nat,
    pub progress_all_now: nat,
    pub do_build: bool,
    pub fields_states: Seq<FieldStateView>,
    pub cursor_position: (u16, u16),
}

/// The field `index` marked or unmarked, the others as they are.
pub open spec fn with_selected(fields: Seq<FieldStateView>, index: int, selected: bool) -> Seq<
    FieldStateView,
> {
    fields.update(index, FieldStateView { is_selected: selected, ..fields[index] })
}

/// The mark taken off the field that `selection` names, if it names one.
pub open spec fn unmarked(fields: Seq<FieldStateView>, selection: Selection) -> Seq<
    FieldStateView,
> {
    match selection {
        Selection::Field(f) => with_selected(fields, f.position() as int, false),
        Selection::RunButton => fields,
    }
}

/// The mark put on the field that `selection` names, if it names one.
pub open spec fn marked(fields: Seq<FieldStateView>, selection: Selection) -> Seq<FieldStateView> {
    match selection {
        Selection::Field(f) => with_selected(fields, f.position() as int, true),
        Selection::RunButton => fields,
    }
}

/// The log after a record: warnings, errors and critical records go to the
/// front under their tag, `INFO` records are not shown; where the log has
/// outgrown [`LOG_MAX`] lines, its front line goes.
pub open spec fn logged(log: Seq<Seq<char>>, level: LogLevel, text: Seq<char>) -> Seq<Seq<char>> {
    let grown = match level {
        LogLevel::WARN => seq!["[WARN] "@ + text] + log,
        LogLevel::ERROR => seq!["[ERROR] "@ + text] + log,
        LogLevel::CRITICAL => seq!["[CRITICAL]"@ + text] + log,
        LogLevel::INFO => log,
    };
    if grown.len() > LOG_MAX {
        grown.drop_first()
    } else {
        grown
    }
}

/// The results after one more line: it goes to the back, and where the list
/// has outgrown [`MESSAGES_MAX`] lines, the oldest goes.
pub open spec fn printed(messages: Seq<Seq<char>>, text: Seq<char>) -> Seq<Seq<char>> {
    let grown = messages.push(text);
    if grown.len() > MESSAGES_MAX {
        grown.drop_first()
    } else {
        grown
    }
}

impl WorkerStateView {
    /// The panel after one message of the engine.
    pub open spec fn observed(self, message: MessageView) -> WorkerStateView {
        match message {
            MessageView::Progress(ProgressView::Total(change)) => match change {
                ChangeView::SetSize(size) => WorkerStateView { progress_all_total: size, ..self },
                ChangeView::Advance => WorkerStateView {
                    progress_all_now: self.progress_all_now + 1,
                    ..self
                },
                ChangeView::Finish => WorkerStateView {
                    current_parsing: "Done!"@,
                    worker: WorkerVariant::Worker(true),
                    ..self
                },
                _ => self,
            },
            MessageView::Progress(ProgressView::Current(change)) => match change {
                ChangeView::SetMessage(text) => WorkerStateView { current_parsing: text, ..self },
                ChangeView::SetSize(size) => WorkerStateView {
                    progress_current_now: 0,
                    progress_current_total: size,
                    ..self
                },
                ChangeView::Advance => WorkerStateView {
                    progress_current_now: self.progress_current_now + 1,
                    ..self
                },
                ChangeView::Print(text) => WorkerStateView {
                    messages: printed(self.messages, text),
                    ..self
                },
                _ => self,
            },
            MessageView::Log(level, text) => WorkerStateView {
                log: logged(self.log, level, text),
                ..self
            },
        }
    }

    /// Whether a message can be counted without leaving the range of the
    /// counters.
    pub open spec fn can_observe(self, message: MessageView) -> bool {
        match message {
            MessageView::Progress(ProgressView::Total(ChangeView::Advance)) => self.progress_all_now
                < usize::MAX,
            MessageView::Progress(ProgressView::Current(ChangeView::Advance)) =>
                self.progress_current_now < usize::MAX,
            _ => true,
        }
    }
}

impl View for WorkerState {
    type V = WorkerStateView;

    open spec fn view(&self) -> WorkerStateView {
        WorkerStateView {
            worker: self.worker,
            selection: self.selection,
            current_parsing: self.current_parsing@,
            log: texts(self.log@),
            messages: texts(self.messages@),
            progress_current_total: self.progress_current_total as nat,
            progress_current_now: self.progress_current_now as nat,
            progress_all_total: self.progress_all_total as nat,
            progress_all_now: self.progress_all_now as nat,
            do_build: self.do_build,
            fields_states: self.fields_states@.map_values(|f: FieldState| f@),
            cursor_position: self.cursor_position,
        }
    }
}

/// The fields of a form as it is first shown.
pub open spec fn default_fields() -> Seq<FieldStateView> {
    seq![
        FieldStateView {
            value: "Unnamed"@,
            cursor: "Unnamed"@.len(),
            is_selected: true,
            is_editing: false,
            is_only_numbers: false,
            field_type: FieldTypeView::Normal,
        },
        FieldStateView {
            value: "http://localhost"@,
            cursor: "http://localhost"@.len(),
            is_selected: false,
            is_editing: false,
            is_only_numbers: false,
            field_type: FieldTypeView::Normal,
        },
        FieldStateView {
            value: decimal(DEFAULT_THREADS_NUMBER as nat),
            cursor: decimal(DEFAULT_THREADS_NUMBER as nat).len(),
            is_selected: false,
            is_editing: false,
            is_only_numbers: true,
            field_type: FieldTypeView::Normal,
        },
        FieldStateView {
            value: decimal(DEFAULT_RECURSIVE_MODE as nat),
            cursor: decimal(DEFAULT_RECURSIVE_MODE as nat).len(),
            is_selected: false,
            is_editing: false,
            is_only_numbers: true,
            field_type: FieldTypeView::Normal,
        },
        FieldStateView {
            value: decimal(DEFAULT_TIMEOUT as nat),
            cursor: decimal(DEFAULT_TIMEOUT as nat).len(),
            is_selected: false,
            is_editing: false,
            is_only_numbers: true,
            field_type: FieldTypeView::Normal,
        },
        FieldStateView {
            value: "/usr/share"@,
            cursor: "/usr/share"@.len(),
            is_selected: false,
            is_editing: false,
            is_only_numbers: false,
            field_type: FieldTypeView::Path(
                PathHintView { possible_paths: Seq::empty(), selected: 0 },
            ),
        },
        FieldStateView {
            value: ""@,
            cursor: ""@.len(),
            is_selected: false,
            is_editing: false,
            is_only_numbers: false,
            field_type: FieldTypeView::Normal,
        },
    ]
}

impl Default for WorkerState {
    /// A form as it is first shown: the defaults in its fields, the first
    /// field marked, nothing logged or counted yet.
    fn default() -> (state: WorkerState)
        ensures
            state@ == (WorkerStateView {
                worker: WorkerVariant::Builder,
                selection: Selection::Field(FieldName::Name),
                current_parsing: Seq::empty(),
                log: Seq::empty(),
                messages: Seq::empty(),
                progress_current_total: 0,
                progress_current_now: 0,
                progress_all_total: 0,
                progress_all_now: 0,
                do_build: false,
                fields_states: default_fields(),
                cursor_position: (0u16, 0u16),
            }),
    {
        let threads = number_text(DEFAULT_THREADS_NUMBER);
        let recursion = number_text(DEFAULT_RECURSIVE_MODE);
        let timeout = number_text(DEFAULT_TIMEOUT);
        let state = WorkerState {
            worker: WorkerVariant::Builder,
            cursor_position: (0, 0),
            selection: Selection::Field(FieldName::Name),
            current_parsing: String::new(),
            log: VecDeque::new(),
            messages: VecDeque::new(),
            do_build: false,
            progress_current_total: 0,
            progress_current_now: 0,
            progress_all_total: 0,
            progress_all_now: 0,
            fields_states: [
                FieldState::new("Unnamed", true, false, FieldType::Normal),
                FieldState::new("http://localhost", false, false, FieldType::Normal),
                FieldState::new(threads.as_str(), false, true, FieldType::Normal),
                FieldState::new(recursion.as_str(), false, true, FieldType::Normal),
                FieldState::new(timeout.as_str(), false, true, FieldType::Normal),
                FieldState::new(
                    "/usr/share",
                    false,
                    false,
                    FieldType::Path(PathHintState::default()),
                ),
                FieldState::new("", false, false, FieldType::Normal),
            ],
        };
        assert(state@.fields_states =~= default_fields());
        assert(state@.log =~= Seq::empty());
        assert(state@.messages =~= Seq::empty());
        state
    }
}

impl WorkerState {
    /// Moves the mark one step down, and with it the mark on the fields.
    pub fn set_next_selection(&mut self)
        ensures
            final(self)@ == (WorkerStateView {
                selection: old(self)@.selection.following(),
                fields_states: marked(
                    unmarked(old(self)@.fields_states, old(self)@.selection),
                    old(self)@.selection.following(),
                ),
                ..old(self)@
            }),
    {
        let ghost before = self@.fields_states;
        if let Selection::Field(f) = self.selection {
            self.fields_states[f.index()].is_selected = false;
        }
        assert(self@.fields_states =~= unmarked(before, self.selection));
        let ghost between = self@.fields_states;
        self.selection.set_next();
        if let Selection::Field(f) = self.selection {
            self.fields_states[f.index()].is_selected = true;
        }
        assert(self@.fields_states =~= marked(between, self.selection));
    }

    /// Moves the mark one step up, and with it the mark on the fields.
    pub fn set_previous_selection(&mut self)
        ensures
            final(self)@ == (WorkerStateView {
                selection: old(self)@.selection.preceding(),
                fields_states: marked(
                    unmarked(old(self)@.fields_states, old(self)@.selection),
                    old(self)@.selection.preceding(),
                ),
                ..old(self)@
            }),
    {
        let ghost before = self@.fields_states;
        if let Selection::Field(f) = self.selection {
            self.fields_states[f.index()].is_selected = false;
        }
        assert(self@.fields_states =~= unmarked(before, self.selection));
        let ghost between = self@.fields_states;
        self.selection.set_previous();
        if let Selection::Field(f) = self.selection {
            self.fields_states[f.index()].is_selected = true;
        }
        assert(self@.fields_states =~= marked(between, self.selection));
    }

    /// Starts or ends the editing of a field.
    pub fn switch_field_editing(&mut self, field: FieldName)
        ensures
            final(self)@ == (WorkerStateView {
                fields_states: old(self)@.fields_states.update(
                    field.position() as int,
                    FieldStateView {
                        is_editing: !old(self)@.fields_states[field.position() as int].is_editing,
                        ..old(self)@.fields_states[field.position() as int]
                    },
                ),
                ..old(self)@
            }),
    {
        let ghost before = self@.fields_states;
        let ind: usize = field.index();
        self.fields_states[ind].is_editing = !self.fields_states[ind].is_editing;
        assert(self@.fields_states =~= before.update(
            ind as int,
            FieldStateView { is_editing: !before[ind as int].is_editing, ..before[ind as int] },
        ));
    }

    /// Where the cursor is drawn.
    pub fn get_cursor_position(&self) -> (position: (u16, u16))
        ensures
            position == self@.cursor_position,
    {
        self.cursor_position
    }

    /// Takes in one message of the engine, unless a counter would leave the
    /// range of `usize`; then nothing changes, and the answer is `false`.
    pub fn try_observe(&mut self, message: WorkerMessage) -> (done: bool)
        ensures
            done == old(self)@.can_observe(message@),
            done ==> final(self)@ == old(self)@.observed(message@),
            !done ==> final(self)@ == old(self)@,
    {
        let fits = match &message {
            WorkerMessage::Progress(ProgressMessage::Total(ProgressChangeMessage::Advance)) => {
                self.progress_all_now < usize::MAX
            },
            WorkerMessage::Progress(ProgressMessage::Current(ProgressChangeMessage::Advance)) => {
                self.progress_current_now < usize::MAX
            },
            _ => true,
        };
        if fits {
            self.observe(message);
        }
        fits
    }

    /// Takes in one message of the engine: sizes and advances go to the
    /// counters, the current message and the end of the scan to the line
    /// that says what is being requested, printed lines to the results, and
    /// log records other than `INFO` to the log.
    pub fn observe(&mut self, message: WorkerMessage)
        requires
            old(self)@.can_observe(message@),
        ensures
            final(self)@ == old(self)@.observed(message@),
    {
        match message {
            WorkerMessage::Progress(ProgressMessage::Total(change)) => match change {
                ProgressChangeMessage::SetSize(size) => {
                    self.progress_all_total = size;
                },
                ProgressChangeMessage::Advance => {
                    self.progress_all_now = self.progress_all_now + 1;
                },
                ProgressChangeMessage::Finish => {
                    self.current_parsing = String::from_str("Done!");
                    self.worker = WorkerVariant::Worker(true);
                },
                _ => {},
            },
            WorkerMessage::Progress(ProgressMessage::Current(change)) => match change {
                ProgressChangeMessage::SetMessage(text) => {
                    self.current_parsing = text;
                },
                ProgressChangeMessage::SetSize(size) => {
                    self.progress_current_now = 0;
                    self.progress_current_total = size;
                },
                ProgressChangeMessage::Advance => {
                    self.progress_current_now = self.progress_current_now + 1;
                },
                ProgressChangeMessage::Print(text) => {
                    let ghost before = texts(self.messages@);
                    self.messages.push_back(text);
                    assert(texts(self.messages@) =~= before.push(text@));
                    if self.messages.len() > MESSAGES_MAX {
                        self.messages.pop_front();
                        assert(texts(self.messages@) =~= before.push(text@).drop_first());
                    }
                },
                _ => {},
            },
            WorkerMessage::Log(level, text) => {
                let ghost before = texts(self.log@);
                match level {
                    LogLevel::WARN => {
                        let mut line = String::from_str("[WARN] ");
                        line.append(text.as_str());
                        self.log.push_front(line);
                        assert(texts(self.log@) =~= seq!["[WARN] "@ + text@] + before);
                    },
                    LogLevel::ERROR => {
                        let mut line = String::from_str("[ERROR] ");
                        line.append(text.as_str());
                        self.log.push_front(line);
                        assert(texts(self.log@) =~= seq!["[ERROR] "@ + text@] + before);
                    },
                    LogLevel::CRITICAL => {
                        let mut line = String::from_str("[CRITICAL]");
                        line.append(text.as_str());
                        self.log.push_front(line);
                        assert(texts(self.log@) =~= seq!["[CRITICAL]"@ + text@] + before);
                    },
                    LogLevel::INFO => {},
                }
                let ghost grown = texts(self.log@);
                if self.log.len() > LOG_MAX {
                    self.log.pop_front();
                    assert(texts(self.log@) =~= grown.drop_first());
                }
            },
        }
    }
}

} // verus!
