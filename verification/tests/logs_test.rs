use std::path::PathBuf;

use gdom::logs::{
    generation_file_name, log_file_path, needs_rotation, rotation_plan, ByteSink, LogError, RedactingMakeWriter,
    RedactingWriter, LOG_DIR_NAME, LOG_FILE_NAME, MAX_LOG_FILES, MAX_LOG_FILE_BYTES,
};
use gdom::redact::REDACTED;

#[test]
fn log_file_path_uses_stable_file_name() {
    let dir = PathBuf::from("C:/tmp/gdom-logs");
    assert_eq!(PathBuf::from(log_file_path("C:/tmp/gdom-logs")), dir.join(LOG_FILE_NAME));
}

#[test]
fn retention_is_ten_megabytes_times_five_files() {
    assert_eq!(MAX_LOG_FILE_BYTES, 10 * 1024 * 1024);
    assert_eq!(MAX_LOG_FILES, 5);
    assert_eq!(LOG_FILE_NAME, "gdom.log");
    assert_eq!(LOG_DIR_NAME, "logs");
}

#[test]
fn writer_redacts_before_the_sink_sees_the_line() {
    let mut writer = RedactingWriter::new(Vec::new());
    let line = b"Authorization: Bearer ya29.live-token\n";
    assert_eq!(writer.write(line), line.len());
    let sink = writer.into_inner();
    let text = String::from_utf8(sink).expect("utf8");
    assert!(text.contains(REDACTED));
    assert!(!text.contains("live-token"));
}

#[test]
fn writer_passes_clean_text_through_unchanged() {
    let mut writer = RedactingWriter::new(Vec::new());
    writer.write(b"job=22 status=RUNNING\n");
    writer.write(b"second line\n");
    let text = String::from_utf8(writer.into_inner()).expect("utf8");
    assert_eq!(text, "job=22 status=RUNNING\nsecond line\n");
}

#[test]
fn byte_sink_appends_in_order() {
    let mut sink: Vec<u8> = vec![1, 2];
    sink.write_all_bytes(&[3, 4]);
    assert_eq!(sink, vec![1, 2, 3, 4]);
}

#[test]
fn make_writer_keeps_its_factory() {
    let maker = RedactingMakeWriter::new(7u32);
    assert_eq!(*maker.inner(), 7);
}

#[test]
fn archive_names_append_the_generation() {
    assert_eq!(generation_file_name(LOG_FILE_NAME, 0), "gdom.log");
    assert_eq!(generation_file_name(LOG_FILE_NAME, 1), "gdom.log.1");
    assert_eq!(generation_file_name(LOG_FILE_NAME, 4), "gdom.log.4");
}

#[test]
fn rotation_happens_only_when_a_written_file_would_overflow() {
    assert!(!needs_rotation(0, 100, 32));
    assert!(!needs_rotation(10, 22, 32));
    assert!(needs_rotation(10, 23, 32));
    assert!(needs_rotation(u64::MAX, 1, u64::MAX - 1));
}

#[test]
fn rotation_drops_the_oldest_and_shifts_the_rest() {
    let plan = rotation_plan(MAX_LOG_FILES).expect("plan");
    assert_eq!(plan.delete, 4);
    assert_eq!(plan.moves, vec![(3, 4), (2, 3), (1, 2), (0, 1)]);
    assert!(rotation_plan(1).is_none());
    assert!(rotation_plan(0).is_none());
}

#[test]
fn log_errors_describe_themselves() {
    let error = LogError::CreateDirectory { path: "/tmp/x".to_string(), source: "denied".to_string() };
    assert_eq!(error.to_string(), "could not create log directory /tmp/x: denied");
    assert_eq!(LogError::Io("disk full".to_string()).to_string(), "log I/O error: disk full");
    assert_eq!(LogError::AlreadyInitialized.to_string(), "tracing subscriber is already initialized");
}
