use yadb::logger::traits::LogLevel;
use yadb::tui::app::{LOG_MAX, MESSAGES_MAX};
use yadb::tui::widgets::field::{FieldState, FieldType};
use yadb::tui::widgets::path_hint::{starts_with, PathHintState, MAX_VARIANTS};
use yadb::tui::widgets::worker_info::{
    FieldName, Selection, WorkerState, WorkerVariant, FIELDS_NUMBER,
};
use yadb::worker::messages::{ProgressChangeMessage, ProgressMessage, WorkerMessage};

const ALL: [FieldName; 7] = [
    FieldName::Name,
    FieldName::Uri,
    FieldName::Threads,
    FieldName::Recursion,
    FieldName::Timeout,
    FieldName::WordlistPath,
    FieldName::ProxyUrl,
];

fn names(list: &[&str]) -> Vec<String> {
    list.iter().map(|n| n.to_string()).collect()
}

#[test]
fn field_names_are_numbered_in_order() {
    assert_eq!(FIELDS_NUMBER, 7);
    for (i, f) in ALL.iter().enumerate() {
        assert_eq!(f.index(), i);
    }
    assert_eq!(FieldName::default(), FieldName::Name);
}

#[test]
fn field_names_go_round() {
    for (i, f) in ALL.iter().enumerate() {
        assert_eq!(f.next(), ALL[(i + 1) % 7]);
        assert_eq!(f.previous(), ALL[(i + 6) % 7]);
        assert_eq!(f.next().previous(), *f);
        assert_eq!(f.previous().next(), *f);
        assert_eq!(f.is_first(), i == 0);
        assert_eq!(f.is_last(), i == 6);
    }
}

#[test]
fn selection_goes_down_through_the_button() {
    let mut s = Selection::default();
    assert_eq!(s, Selection::Field(FieldName::Name));
    for f in &ALL[1..] {
        s.set_next();
        assert_eq!(s, Selection::Field(*f));
    }
    s.set_next();
    assert_eq!(s, Selection::RunButton);
    s.set_next();
    assert_eq!(s, Selection::Field(FieldName::Name));
}

#[test]
fn selection_goes_up_through_the_button() {
    let mut s = Selection::Field(FieldName::Uri);
    s.set_previous();
    assert_eq!(s, Selection::Field(FieldName::Name));
    s.set_previous();
    assert_eq!(s, Selection::RunButton);
    s.set_previous();
    assert_eq!(s, Selection::Field(FieldName::WordlistPath));
    s.set_previous();
    assert_eq!(s, Selection::Field(FieldName::Timeout));
    let mut s = Selection::Field(FieldName::ProxyUrl);
    s.set_previous();
    assert_eq!(s, Selection::Field(FieldName::WordlistPath));
}

#[test]
fn prefix_test() {
    assert!(starts_with("wordlist.txt", "word"));
    assert!(starts_with("wordlist.txt", ""));
    assert!(starts_with("", ""));
    assert!(starts_with("abc", "abc"));
    assert!(!starts_with("abc", "abcd"));
    assert!(!starts_with("abc", "b"));
    assert!(!starts_with("", "a"));
    assert!(starts_with("éa", "é"));
    assert!(!starts_with("éa", "e"));
}

#[test]
fn hints_are_the_first_matches() {
    let mut state = PathHintState::default();
    let entries = names(&["bin", "share", "sbin", "src", "lib", "shadow", "s1", "s2", "s3"]);
    state.get_hints(&entries, "s");
    assert_eq!(MAX_VARIANTS, 5);
    assert_eq!(state.possible_paths, names(&["share", "sbin", "src", "shadow", "s1"]));
    assert_eq!(state.selected(), 0);
    state.get_hints(&entries, "sh");
    assert_eq!(state.possible_paths, names(&["share", "shadow"]));
    state.get_hints(&entries, "");
    assert_eq!(state.possible_paths, names(&["bin", "share", "sbin", "src", "lib"]));
    state.get_hints(&entries, "zzz");
    assert!(state.possible_paths.is_empty());
    assert_eq!(state.get_selected(), None);
}

#[test]
fn hints_reset_the_mark() {
    let mut state = PathHintState::default();
    state.get_hints(&names(&["a", "b", "c"]), "");
    state.next();
    state.next();
    assert_eq!(state.selected(), 2);
    state.get_hints(&names(&["x", "y"]), "");
    assert_eq!(state.selected(), 0);
    assert_eq!(state.get_selected(), Some(&"x".to_string()));
}

#[test]
fn mark_goes_round_the_hints() {
    let mut state = PathHintState::default();
    state.next();
    state.previous();
    assert_eq!(state.selected(), 0);
    assert_eq!(state.get_selected(), None);
    state.get_hints(&names(&["a", "b", "c"]), "");
    assert_eq!(state.get_selected(), Some(&"a".to_string()));
    state.next();
    assert_eq!(state.get_selected(), Some(&"b".to_string()));
    state.next();
    state.next();
    assert_eq!(state.get_selected(), Some(&"a".to_string()));
    state.previous();
    assert_eq!(state.get_selected(), Some(&"c".to_string()));
    state.previous();
    assert_eq!(state.get_selected(), Some(&"b".to_string()));
}

#[test]
fn mark_beyond_a_shortened_list() {
    let mut state = PathHintState::default();
    state.get_hints(&names(&["a", "b", "c", "d"]), "");
    state.next();
    state.next();
    state.next();
    state.possible_paths.truncate(2);
    assert_eq!(state.get_selected(), None);
    state.next();
    assert_eq!(state.selected(), 0);
}

#[test]
fn new_field_has_the_cursor_at_its_end() {
    let f = FieldState::new("héllo", true, false, FieldType::Normal);
    assert_eq!(f.get(), "héllo");
    assert_eq!(f.cursor, 5);
    assert!(f.is_selected);
    assert!(!f.is_editing);
    assert!(!f.is_only_numbers);
    assert_eq!(f.field_type, FieldType::Normal);
    let d = FieldState::default();
    assert_eq!(d.get(), "");
    assert_eq!(d.cursor, 0);
    assert_eq!(FieldType::default(), FieldType::Normal);
}

#[test]
fn number_fields_take_digits_only() {
    let f = FieldState::new("5", false, true, FieldType::Normal);
    assert!(f.accepts('0'));
    assert!(f.accepts('9'));
    assert!(!f.accepts('a'));
    assert!(!f.accepts('-'));
    assert!(!f.accepts('٣'));
    let zero = FieldState::new("0", false, true, FieldType::Normal);
    assert!(!zero.accepts('1'));
    let empty = FieldState::new("", false, true, FieldType::Normal);
    assert!(empty.accepts('0'));
    let text = FieldState::new("0", false, false, FieldType::Normal);
    assert!(text.accepts('x'));
    assert!(text.accepts('1'));
}

#[test]
fn default_panel() {
    let s = WorkerState::default();
    assert_eq!(s.worker, WorkerVariant::Builder);
    assert_eq!(WorkerVariant::default(), WorkerVariant::Builder);
    assert_eq!(s.selection, Selection::Field(FieldName::Name));
    assert_eq!(s.current_parsing, "");
    assert!(s.log.is_empty());
    assert!(s.messages.is_empty());
    assert_eq!(
        (
            s.progress_current_total,
            s.progress_current_now,
            s.progress_all_total,
            s.progress_all_now
        ),
        (0, 0, 0, 0)
    );
    assert!(!s.do_build);
    assert_eq!(s.get_cursor_position(), (0, 0));
    let values: Vec<&str> = s.fields_states.iter().map(|f| f.get()).collect();
    assert_eq!(values, vec!["Unnamed", "http://localhost", "50", "0", "5", "/usr/share", ""]);
    let selected: Vec<bool> = s.fields_states.iter().map(|f| f.is_selected).collect();
    assert_eq!(selected, vec![true, false, false, false, false, false, false]);
    let numbers: Vec<bool> = s.fields_states.iter().map(|f| f.is_only_numbers).collect();
    assert_eq!(numbers, vec![false, false, true, true, true, false, false]);
    assert_eq!(s.fields_states[5].field_type, FieldType::Path(PathHintState::default()));
    assert_eq!(s.fields_states[2].cursor, 2);
}

#[test]
fn panel_moves_the_mark_with_the_selection() {
    let mut s = WorkerState::default();
    s.set_next_selection();
    assert_eq!(s.selection, Selection::Field(FieldName::Uri));
    assert!(!s.fields_states[0].is_selected);
    assert!(s.fields_states[1].is_selected);
    s.set_previous_selection();
    s.set_previous_selection();
    assert_eq!(s.selection, Selection::RunButton);
    assert!(s.fields_states.iter().all(|f| !f.is_selected));
    s.set_previous_selection();
    assert_eq!(s.selection, Selection::Field(FieldName::WordlistPath));
    assert!(s.fields_states[5].is_selected);
    s.set_next_selection();
    s.set_next_selection();
    assert_eq!(s.selection, Selection::RunButton);
    s.set_next_selection();
    assert!(s.fields_states[0].is_selected);
}

#[test]
fn panel_switches_editing() {
    let mut s = WorkerState::default();
    s.switch_field_editing(FieldName::Timeout);
    assert!(s.fields_states[4].is_editing);
    assert!(s.fields_states.iter().filter(|f| f.is_editing).count() == 1);
    s.switch_field_editing(FieldName::Timeout);
    assert!(!s.fields_states[4].is_editing);
}

#[test]
fn panel_counts_progress() {
    let mut s = WorkerState::default();
    s.observe(WorkerMessage::set_total_size(10));
    s.observe(WorkerMessage::set_current_size(10));
    s.observe(WorkerMessage::advance_current());
    s.observe(WorkerMessage::advance_total());
    s.observe(WorkerMessage::advance_total());
    assert_eq!((s.progress_all_total, s.progress_all_now), (10, 2));
    assert_eq!((s.progress_current_total, s.progress_current_now), (10, 1));
    s.observe(WorkerMessage::set_total_size(30));
    s.observe(WorkerMessage::set_current_size(30));
    assert_eq!((s.progress_all_total, s.progress_all_now), (30, 2));
    assert_eq!((s.progress_current_total, s.progress_current_now), (30, 0));
}

#[test]
fn panel_shows_what_is_requested_and_when_it_is_done() {
    let mut s = WorkerState::default();
    s.observe(WorkerMessage::Progress(ProgressMessage::Current(
        ProgressChangeMessage::SetMessage("GET http://h/b/ -> 404".to_string()),
    )));
    assert_eq!(s.current_parsing, "GET http://h/b/ -> 404");
    s.observe(WorkerMessage::finish_current());
    assert_eq!(s.current_parsing, "GET http://h/b/ -> 404");
    assert_eq!(s.worker, WorkerVariant::Builder);
    s.observe(WorkerMessage::finish_total());
    assert_eq!(s.current_parsing, "Done!");
    assert_eq!(s.worker, WorkerVariant::Worker(true));
}

#[test]
fn panel_ignores_what_it_does_not_show() {
    let mut s = WorkerState::default();
    for m in [
        WorkerMessage::Progress(ProgressMessage::Total(ProgressChangeMessage::SetMessage(
            "x".to_string(),
        ))),
        WorkerMessage::Progress(ProgressMessage::Total(ProgressChangeMessage::Start(3))),
        WorkerMessage::Progress(ProgressMessage::Total(ProgressChangeMessage::Print(
            "x".to_string(),
        ))),
        WorkerMessage::Progress(ProgressMessage::Current(ProgressChangeMessage::Start(3))),
        WorkerMessage::Log(LogLevel::INFO, "http://h/a/ -> 200".to_string()),
    ] {
        s.observe(m);
    }
    assert_eq!(s.current_parsing, "");
    assert!(s.log.is_empty());
    assert!(s.messages.is_empty());
    assert_eq!(s.progress_all_total, 0);
    assert_eq!(s.progress_current_total, 0);
}

#[test]
fn panel_keeps_the_last_results() {
    let mut s = WorkerState::default();
    assert_eq!(MESSAGES_MAX, 20);
    for i in 0..25 {
        s.observe(WorkerMessage::Progress(ProgressMessage::Current(
            ProgressChangeMessage::Print(format!("line {i}")),
        )));
    }
    assert_eq!(s.messages.len(), 20);
    assert_eq!(s.messages.front(), Some(&"line 5".to_string()));
    assert_eq!(s.messages.back(), Some(&"line 24".to_string()));
}

#[test]
fn panel_logs_under_tags() {
    let mut s = WorkerState::default();
    s.observe(WorkerMessage::Log(LogLevel::WARN, "w".to_string()));
    s.observe(WorkerMessage::Log(LogLevel::ERROR, "e".to_string()));
    s.observe(WorkerMessage::Log(LogLevel::CRITICAL, "c".to_string()));
    let lines: Vec<&str> = s.log.iter().map(|l| l.as_str()).collect();
    assert_eq!(lines, vec!["[CRITICAL]c", "[ERROR] e", "[WARN] w"]);
}

#[test]
fn panel_log_is_bounded() {
    let mut s = WorkerState::default();
    assert_eq!(LOG_MAX, 5);
    for i in 0..5 {
        s.observe(WorkerMessage::Log(LogLevel::WARN, format!("{i}")));
    }
    assert_eq!(s.log.len(), 5);
    s.observe(WorkerMessage::Log(LogLevel::ERROR, "late".to_string()));
    assert_eq!(s.log.len(), 5);
    let lines: Vec<&str> = s.log.iter().map(|l| l.as_str()).collect();
    assert_eq!(lines, vec!["[WARN] 4", "[WARN] 3", "[WARN] 2", "[WARN] 1", "[WARN] 0"]);
}

#[test]
fn panel_refuses_to_count_beyond_the_range() {
    let mut s = WorkerState::default();
    s.progress_all_now = usize::MAX;
    assert!(!s.try_observe(WorkerMessage::advance_total()));
    assert_eq!(s.progress_all_now, usize::MAX);
    assert!(s.try_observe(WorkerMessage::advance_current()));
    assert_eq!(s.progress_current_now, 1);
    s.progress_current_now = usize::MAX;
    assert!(!s.try_observe(WorkerMessage::advance_current()));
    assert!(s.try_observe(WorkerMessage::set_current_size(3)));
    assert_eq!((s.progress_current_total, s.progress_current_now), (3, 0));
}
