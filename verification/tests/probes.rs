use yadb::logger::traits::LogLevel;
use yadb::worker::messages::{ProgressChangeMessage, ProgressMessage, WorkerMessage};
use yadb::worker::probe::{
    announce, candidate, number_text, probe, status_text, Discovery, ProbeOutcome, NOT_FOUND,
};
use yadb::worker::target::TargetUrl;

fn current(change: ProgressChangeMessage) -> WorkerMessage {
    WorkerMessage::Progress(ProgressMessage::Current(change))
}

#[test]
fn candidate_under_base_with_trailing_slash() {
    assert_eq!(candidate("http://h/", "admin"), "http://h/admin/");
}

#[test]
fn candidate_under_base_without_trailing_slash() {
    assert_eq!(candidate("http://h/app", "admin"), "http://h/app/admin/");
}

#[test]
fn candidate_of_blank_word() {
    assert_eq!(candidate("http://h/", ""), "http://h//");
    assert_eq!(candidate("http://h/app", ""), "http://h/app//");
}

#[test]
fn candidate_under_empty_base() {
    assert_eq!(candidate("", "x"), "/x/");
}

#[test]
fn candidate_keeps_text_beyond_ascii() {
    assert_eq!(candidate("http://h/é", "ü/ö"), "http://h/é/ü/ö/");
    assert_eq!(candidate("http://h/é/", "ü"), "http://h/é/ü/");
}

#[test]
fn status_numerals() {
    assert_eq!(status_text(0), "0");
    assert_eq!(status_text(7), "7");
    assert_eq!(status_text(200), "200");
    assert_eq!(status_text(404), "404");
    assert_eq!(status_text(u16::MAX), "65535");
    assert_eq!(NOT_FOUND, 404);
}

#[test]
fn number_numerals() {
    assert_eq!(number_text(0), "0");
    assert_eq!(number_text(10), "10");
    assert_eq!(number_text(1234567890), "1234567890");
    assert_eq!(number_text(usize::MAX), usize::MAX.to_string());
}

#[test]
fn probe_of_absent_path_sets_the_message() {
    let report = probe("http://h/b/", &ProbeOutcome::Status(404));
    assert_eq!(
        report.messages,
        vec![
            current(ProgressChangeMessage::SetMessage("GET http://h/b/ -> 404".to_string())),
            WorkerMessage::advance_current(),
            WorkerMessage::advance_total(),
        ]
    );
    assert_eq!(report.discovery, Discovery::Nothing);
}

#[test]
fn probe_of_present_path_prints_and_logs() {
    let report = probe("http://h/a/", &ProbeOutcome::Status(200));
    assert_eq!(
        report.messages,
        vec![
            current(ProgressChangeMessage::Print("GET http://h/a/ -> 200".to_string())),
            WorkerMessage::Log(LogLevel::INFO, "http://h/a/ -> 200".to_string()),
            WorkerMessage::advance_current(),
            WorkerMessage::advance_total(),
        ]
    );
    assert_eq!(report.discovery, Discovery::Found(TargetUrl::parse("http://h/a/").unwrap()));
}

#[test]
fn every_status_but_404_is_a_discovery() {
    for status in [100u16, 200, 204, 301, 302, 401, 403, 405, 500, 503] {
        let report = probe("http://h/a/", &ProbeOutcome::Status(status));
        assert_eq!(report.messages.len(), 4);
        assert!(matches!(report.discovery, Discovery::Found(_)));
    }
}

#[test]
fn probe_of_failed_request_prints_the_error() {
    let report = probe("http://h/a/", &ProbeOutcome::Failed("timeout: global".to_string()));
    assert_eq!(
        report.messages,
        vec![
            current(ProgressChangeMessage::Print(
                "Error while sending request to http://h/a/: timeout: global".to_string()
            )),
            WorkerMessage::advance_current(),
            WorkerMessage::advance_total(),
        ]
    );
    assert_eq!(report.discovery, Discovery::Nothing);
}

#[test]
fn every_probe_advances_both_streams_once() {
    let outcomes = [
        ProbeOutcome::Status(200),
        ProbeOutcome::Status(404),
        ProbeOutcome::Status(500),
        ProbeOutcome::Failed("refused".to_string()),
    ];
    for outcome in &outcomes {
        let messages = probe("http://h/x/", outcome).messages;
        let n = messages.len();
        assert_eq!(messages[n - 2], WorkerMessage::advance_current());
        assert_eq!(messages[n - 1], WorkerMessage::advance_total());
        assert_eq!(
            messages.iter().filter(|m| **m == WorkerMessage::advance_current()).count(),
            1
        );
        assert_eq!(
            messages.iter().filter(|m| **m == WorkerMessage::advance_total()).count(),
            1
        );
    }
}

#[test]
fn discovery_that_does_not_parse_is_told_apart() {
    let report = probe("not a url/x/", &ProbeOutcome::Status(200));
    assert_eq!(
        report.discovery,
        Discovery::Malformed(url::ParseError::RelativeUrlWithoutBase)
    );
    assert_eq!(report.messages.len(), 4);
}

#[test]
fn discovered_url_is_the_parsed_candidate() {
    let report = probe("HTTP://Example.COM/a b/", &ProbeOutcome::Status(200));
    match report.discovery {
        Discovery::Found(url) => {
            assert_eq!(url.as_str(), "http://example.com/a%20b/");
            assert_eq!(url.segments(), Some(2));
        }
        other => panic!("unexpected {:?}", other),
    }
}

#[test]
fn target_url_is_normalized_by_the_parser() {
    let url = TargetUrl::parse("HTTP://Example.COM").unwrap();
    assert_eq!(url.as_str(), "http://example.com/");
    assert_eq!(url.segments(), Some(1));
    let url = TargetUrl::parse("https://example.com/a/b/c").unwrap();
    assert_eq!(url.segments(), Some(3));
    let url = TargetUrl::parse("https://example.com/a/b/").unwrap();
    assert_eq!(url.segments(), Some(3));
    assert_eq!(url.clone(), url);
}

#[test]
fn target_url_without_a_base_has_no_segments() {
    let url = TargetUrl::parse("data:text/plain,Hello").unwrap();
    assert_eq!(url.segments(), None);
    assert_eq!(url.as_str(), "data:text/plain,Hello");
}

#[test]
fn target_url_parse_errors() {
    assert_eq!(TargetUrl::parse("example.com"), Err(url::ParseError::RelativeUrlWithoutBase));
    assert_eq!(TargetUrl::parse(""), Err(url::ParseError::RelativeUrlWithoutBase));
    assert_eq!(TargetUrl::parse("http://"), Err(url::ParseError::EmptyHost));
    assert_eq!(TargetUrl::parse("http://h:99999/"), Err(url::ParseError::InvalidPort));
}

#[test]
fn announce_gives_the_messages_of_the_probe() {
    for outcome in [
        ProbeOutcome::Status(200),
        ProbeOutcome::Status(404),
        ProbeOutcome::Failed("refused".to_string()),
    ] {
        assert_eq!(announce("http://h/x/", &outcome), probe("http://h/x/", &outcome).messages);
    }
    assert_eq!(
        announce("c", &ProbeOutcome::Status(301)),
        vec![
            current(ProgressChangeMessage::Print("GET c -> 301".to_string())),
            WorkerMessage::Log(LogLevel::INFO, "c -> 301".to_string()),
            WorkerMessage::advance_current(),
            WorkerMessage::advance_total(),
        ]
    );
}

#[test]
fn outcomes_that_are_discoveries() {
    assert!(ProbeOutcome::Status(200).is_discovery());
    assert!(ProbeOutcome::Status(403).is_discovery());
    assert!(ProbeOutcome::Status(0).is_discovery());
    assert!(!ProbeOutcome::Status(404).is_discovery());
    assert!(!ProbeOutcome::Failed("404".to_string()).is_discovery());
}

#[test]
fn discovery_from_the_parsers_answer() {
    let url = TargetUrl::from_parts("http://h/a/".to_string(), Some(vec!["a".to_string(), String::new()]));
    assert_eq!(Discovery::from_parse(Ok(url.clone())), Discovery::Found(url));
    assert_eq!(
        Discovery::from_parse(Err(url::ParseError::InvalidPort)),
        Discovery::Malformed(url::ParseError::InvalidPort)
    );
}

#[test]
fn target_from_parts_counts_the_segments() {
    let url = TargetUrl::from_parts(
        "http://h/a/b".to_string(),
        Some(vec!["a".to_string(), "b".to_string()]),
    );
    assert_eq!(url.as_str(), "http://h/a/b");
    assert_eq!(url.segments(), Some(2));
    assert_eq!(url, TargetUrl::parse("http://h/a/b").unwrap());
    let root = TargetUrl::from_parts("http://h/".to_string(), Some(vec![String::new()]));
    assert_eq!(root, TargetUrl::parse("http://h").unwrap());
    let none = TargetUrl::from_parts("mailto:x".to_string(), None);
    assert_eq!(none.segments(), None);
    let empty = TargetUrl::from_parts(String::new(), Some(Vec::new()));
    assert_eq!(empty.segments(), Some(0));
}
