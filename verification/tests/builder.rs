use std::sync::mpsc::channel;
use std::sync::Arc;

use yadb::worker::builder::{
    BuilderError, PathStatus, WorkerBuilder, DEFAULT_RECURSIVE_MODE, DEFAULT_THREADS_NUMBER,
    DEFAULT_TIMEOUT,
};
use yadb::worker::messages::WorkerMessage;
use yadb::worker::target::TargetUrl;

const FILE: PathStatus = PathStatus { exists: true, is_file: true, is_utf8: true };
const MISSING: PathStatus = PathStatus { exists: false, is_file: false, is_utf8: true };
const DIRECTORY: PathStatus = PathStatus { exists: true, is_file: false, is_utf8: true };
const NOT_TEXT: PathStatus = PathStatus { exists: true, is_file: true, is_utf8: false };

fn sender() -> Arc<std::sync::mpsc::Sender<WorkerMessage>> {
    let (tx, _rx) = channel::<WorkerMessage>();
    Arc::new(tx)
}

fn ready() -> WorkerBuilder {
    WorkerBuilder::default()
        .uri("http://h/")
        .wordlist("words.txt", FILE)
        .message_sender(sender())
}

#[test]
fn build_without_target() {
    let r = WorkerBuilder::default().build();
    assert_eq!(r.err(), Some(BuilderError::TargetNotSpecified));
    let r = WorkerBuilder::default()
        .wordlist("words.txt", FILE)
        .message_sender(sender())
        .build();
    assert_eq!(r.err(), Some(BuilderError::TargetNotSpecified));
}

#[test]
fn build_without_wordlist() {
    let r = WorkerBuilder::default().uri("http://h/").message_sender(sender()).build();
    assert_eq!(r.err(), Some(BuilderError::WordlistNotSpecified));
}

#[test]
fn build_without_sender() {
    let r = WorkerBuilder::default().uri("http://h/").wordlist("words.txt", FILE).build();
    assert_eq!(r.err(), Some(BuilderError::SenderChannelNotSpecified));
}

#[test]
fn wordlist_that_does_not_exist() {
    let r = ready().wordlist("/no/such/file", MISSING).build();
    assert_eq!(r.err(), Some(BuilderError::FileNotFound("/no/such/file".to_string())));
}

#[test]
fn wordlist_that_is_a_directory() {
    let r = ready().wordlist("/tmp", DIRECTORY).build();
    assert_eq!(r.err(), Some(BuilderError::NotAFile("/tmp".to_string())));
}

#[test]
fn wordlist_whose_path_is_not_text() {
    let r = ready().wordlist("words", NOT_TEXT).build();
    assert_eq!(r.err(), Some(BuilderError::InvalidFilePath));
}

#[test]
fn missing_file_comes_before_the_other_checks() {
    let nothing = PathStatus { exists: false, is_file: false, is_utf8: false };
    let r = ready().wordlist("w", nothing).build();
    assert_eq!(r.err(), Some(BuilderError::FileNotFound("w".to_string())));
    let odd = PathStatus { exists: true, is_file: false, is_utf8: false };
    let r = ready().wordlist("w", odd).build();
    assert_eq!(r.err(), Some(BuilderError::NotAFile("w".to_string())));
}

#[test]
fn uri_that_does_not_parse() {
    let r = ready().uri("not a url").build();
    assert_eq!(
        r.err(),
        Some(BuilderError::UrlParseError(url::ParseError::RelativeUrlWithoutBase))
    );
}

#[test]
fn latched_parse_error_is_not_masked_by_a_good_wordlist() {
    let builder = WorkerBuilder::default().uri("::::").wordlist("words.txt", FILE);
    assert!(builder.has_error());
    assert_eq!(builder.wordlist, None);
    let r = builder.message_sender(sender()).build();
    assert!(matches!(r, Err(BuilderError::UrlParseError(_))));
}

#[test]
fn latched_error_survives_every_setter() {
    let builder = WorkerBuilder::default()
        .wordlist("/missing", MISSING)
        .threads(8)
        .recursive(3)
        .timeout(30)
        .uri("http://h/")
        .proxy_url("http://proxy/")
        .wordlist("words.txt", FILE)
        .wordlist("/tmp", DIRECTORY)
        .uri("nonsense")
        .threads(0)
        .message_sender(sender());
    assert_eq!(builder.threads, None);
    assert_eq!(builder.recursion, None);
    assert_eq!(builder.timeout, None);
    assert_eq!(builder.wordlist, None);
    assert_eq!(builder.uri, None);
    assert_eq!(builder.proxy_uri, None);
    assert_eq!(builder.build().err(), Some(BuilderError::FileNotFound("/missing".to_string())));
}

#[test]
fn first_error_wins() {
    let r = ready().uri("nonsense").wordlist("/missing", MISSING).build();
    assert!(matches!(r, Err(BuilderError::UrlParseError(_))));
    let r = ready().wordlist("/missing", MISSING).uri("nonsense").build();
    assert_eq!(r.err(), Some(BuilderError::FileNotFound("/missing".to_string())));
}

#[test]
fn defaults() {
    assert_eq!(DEFAULT_THREADS_NUMBER, 50);
    assert_eq!(DEFAULT_RECURSIVE_MODE, 0);
    assert_eq!(DEFAULT_TIMEOUT, 5);
    let worker = ready().build().unwrap();
    assert_eq!(worker.threads(), 50);
    assert_eq!(worker.recursion_depth(), 0);
    assert_eq!(worker.timeout(), 5);
    assert_eq!(worker.wordlist_path(), "words.txt");
    assert_eq!(worker.uri().as_str(), "http://h/");
    assert!(worker.proxy_uri().is_none());
}

#[test]
fn settings_reach_the_worker() {
    let worker = ready()
        .threads(4)
        .recursive(2)
        .timeout(11)
        .proxy_url("http://127.0.0.1:8080")
        .build()
        .unwrap();
    assert_eq!(worker.threads(), 4);
    assert_eq!(worker.recursion_depth(), 2);
    assert_eq!(worker.timeout(), 11);
    assert_eq!(worker.proxy_uri().unwrap().as_str(), "http://127.0.0.1:8080/");
}

#[test]
fn empty_proxy_is_unset() {
    let builder = ready().proxy_url("");
    assert!(!builder.has_error());
    assert_eq!(builder.proxy_uri, None);
    assert!(builder.build().is_ok());
}

#[test]
fn proxy_that_does_not_parse() {
    let r = ready().proxy_url("proxy").build();
    assert_eq!(
        r.err(),
        Some(BuilderError::UrlParseError(url::ParseError::RelativeUrlWithoutBase))
    );
}

#[test]
fn zero_threads_are_rejected() {
    let builder = ready().threads(0);
    assert!(builder.has_error());
    assert_eq!(builder.threads, None);
    assert_eq!(builder.build().err(), Some(BuilderError::InvalidThreadsNumber));
}

#[test]
fn zero_threads_set_on_the_field_are_rejected_too() {
    let mut builder = ready();
    builder.threads = Some(0);
    assert_eq!(builder.build().err(), Some(BuilderError::InvalidThreadsNumber));
}

#[test]
fn later_setting_replaces_the_earlier() {
    let worker = ready().threads(3).threads(9).uri("http://other/x").build().unwrap();
    assert_eq!(worker.threads(), 9);
    assert_eq!(worker.uri().as_str(), "http://other/x");
}

#[test]
fn new_builder_is_the_default_one() {
    let a = WorkerBuilder::new();
    let b = WorkerBuilder::default();
    assert_eq!(a.threads, b.threads);
    assert_eq!(a.uri, b.uri);
    assert!(!a.has_error());
    assert_eq!(a.build().err(), Some(BuilderError::TargetNotSpecified));
}

#[test]
fn parse_error_converts_into_builder_error() {
    let e: BuilderError = url::ParseError::EmptyHost.into();
    assert_eq!(e, BuilderError::UrlParseError(url::ParseError::EmptyHost));
}

#[test]
fn parsed_uri_sets_or_latches() {
    let url = TargetUrl::parse("http://h/x").unwrap();
    let builder = WorkerBuilder::default().parsed_uri(Ok(url.clone()));
    assert_eq!(builder.uri, Some(url.clone()));
    assert!(!builder.has_error());
    let builder = builder.parsed_uri(Err(url::ParseError::InvalidIpv6Address));
    assert!(builder.has_error());
    assert_eq!(builder.uri, Some(url.clone()));
    let builder = builder.parsed_uri(Ok(TargetUrl::parse("http://other/").unwrap()));
    assert_eq!(builder.uri, Some(url));
    assert_eq!(
        builder.build().err(),
        Some(BuilderError::UrlParseError(url::ParseError::InvalidIpv6Address))
    );
}

#[test]
fn parsed_proxy_sets_or_latches() {
    let proxy = TargetUrl::parse("socks5://p:1080").unwrap();
    let builder = ready().parsed_proxy(Ok(proxy.clone()));
    assert_eq!(builder.proxy_uri, Some(proxy));
    let builder = ready().parsed_proxy(Err(url::ParseError::EmptyHost));
    assert_eq!(builder.proxy_uri, None);
    assert_eq!(
        builder.build().err(),
        Some(BuilderError::UrlParseError(url::ParseError::EmptyHost))
    );
}

#[test]
fn builder_error_clones_itself() {
    for e in [
        BuilderError::UrlParseError(url::ParseError::Overflow),
        BuilderError::TargetNotSpecified,
        BuilderError::WordlistNotSpecified,
        BuilderError::InvalidFilePath,
        BuilderError::FileNotFound("a".to_string()),
        BuilderError::NotAFile("b".to_string()),
        BuilderError::SenderChannelNotSpecified,
        BuilderError::InvalidThreadsNumber,
    ] {
        assert_eq!(e.clone(), e);
    }
}
