use yadb::buster::BusterError;
use yadb::buster_messages::BusterMessage;
use yadb::logger::file_logger::{level_tag, log_line};
use yadb::logger::traits::{LogLevel, Logger, NullLogger};
use yadb::progress_handler::traits::{NullProgressHandler, ProgressHandler};
use yadb::worker::messages::{ProgressChangeMessage, ProgressMessage, WorkerMessage};

#[test]
fn worker_message_constructors() {
    assert_eq!(
        WorkerMessage::set_total_size(3),
        WorkerMessage::Progress(ProgressMessage::Total(ProgressChangeMessage::SetSize(3)))
    );
    assert_eq!(
        WorkerMessage::set_current_size(4),
        WorkerMessage::Progress(ProgressMessage::Current(ProgressChangeMessage::SetSize(4)))
    );
    assert_eq!(
        WorkerMessage::finish_total(),
        WorkerMessage::Progress(ProgressMessage::Total(ProgressChangeMessage::Finish))
    );
    assert_eq!(
        WorkerMessage::finish_current(),
        WorkerMessage::Progress(ProgressMessage::Current(ProgressChangeMessage::Finish))
    );
    assert_eq!(
        WorkerMessage::advance_total(),
        WorkerMessage::Progress(ProgressMessage::Total(ProgressChangeMessage::Advance))
    );
    assert_eq!(
        WorkerMessage::advance_current(),
        WorkerMessage::Progress(ProgressMessage::Current(ProgressChangeMessage::Advance))
    );
    assert_eq!(
        WorkerMessage::log(LogLevel::WARN, "careful".to_string()),
        WorkerMessage::Log(LogLevel::WARN, "careful".to_string())
    );
}

#[test]
fn buster_message_constructors() {
    assert_eq!(
        BusterMessage::set_total_size(3),
        BusterMessage::Progress(ProgressMessage::Total(ProgressChangeMessage::SetSize(3)))
    );
    assert_eq!(
        BusterMessage::set_current_size(4),
        BusterMessage::Progress(ProgressMessage::Current(ProgressChangeMessage::SetSize(4)))
    );
    assert_eq!(
        BusterMessage::finish_total(),
        BusterMessage::Progress(ProgressMessage::Total(ProgressChangeMessage::Finish))
    );
    assert_eq!(
        BusterMessage::finish_current(),
        BusterMessage::Progress(ProgressMessage::Current(ProgressChangeMessage::Finish))
    );
    assert_eq!(
        BusterMessage::advance_total(),
        BusterMessage::Progress(ProgressMessage::Total(ProgressChangeMessage::Advance))
    );
    assert_eq!(
        BusterMessage::advance_current(),
        BusterMessage::Progress(ProgressMessage::Current(ProgressChangeMessage::Advance))
    );
    assert_eq!(
        BusterMessage::log(LogLevel::ERROR, "bad".to_string()),
        BusterMessage::Log(LogLevel::ERROR, "bad".to_string())
    );
}

#[test]
fn buster_message_from_worker_message() {
    assert_eq!(
        BusterMessage::from(WorkerMessage::set_total_size(9)),
        BusterMessage::set_total_size(9)
    );
    assert_eq!(
        BusterMessage::from(WorkerMessage::log(LogLevel::INFO, "x -> 200".to_string())),
        BusterMessage::log(LogLevel::INFO, "x -> 200".to_string())
    );
}

#[test]
fn buster_error_text() {
    assert_eq!(
        BusterError::RequestError("timed out".to_string()).message(),
        "Request error: timed out"
    );
}

#[test]
fn level_tags() {
    assert_eq!(level_tag(LogLevel::INFO), "[INFO] ");
    assert_eq!(level_tag(LogLevel::WARN), "[WARN] ");
    assert_eq!(level_tag(LogLevel::ERROR), "[ERROR] ");
    assert_eq!(level_tag(LogLevel::CRITICAL), "[CRITICAL] ");
}

#[test]
fn log_lines() {
    assert_eq!(
        log_line("[12:34:56] ", LogLevel::INFO, "http://h/a/ -> 200"),
        "[12:34:56] [INFO] http://h/a/ -> 200\n"
    );
    assert_eq!(log_line("", LogLevel::CRITICAL, ""), "[CRITICAL] \n");
}

#[test]
fn null_sinks_take_everything() {
    let logger = NullLogger::default();
    logger.log(LogLevel::INFO, "dropped".to_string());
    let handler = NullProgressHandler::default();
    handler.start(10);
    handler.set_size(20);
    handler.advance();
    handler.set_message("m".to_string());
    handler.println("p".to_string());
    handler.finish();
    assert_eq!(handler, NullProgressHandler);
}
