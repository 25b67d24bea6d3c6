use scene_commands::logger::Log;
use scene_commands::logger::MessageKind;

#[test]
fn writeln_prefixes_and_timestamps() {
    let log = Log::new();
    let (line, message) = log
        .writeln(MessageKind::Information, "engine ready".to_string(), 42)
        .unwrap();
    assert_eq!(line, "[INFO]: engine ready\n".to_string());
    assert_eq!(message.kind, MessageKind::Information);
    assert_eq!(message.content, "engine ready\n".to_string());
    assert_eq!(message.time, 42);
}

#[test]
fn write_does_not_append_newline() {
    let log = Log::new();
    let (line, message) = log.write(MessageKind::Error, "bad".to_string(), 7).unwrap();
    assert_eq!(line, "[ERROR]: bad".to_string());
    assert_eq!(message.content, "bad".to_string());
}

#[test]
fn verbosity_filters_lower_kinds() {
    let mut log = Log::new();
    log.set_verbosity(MessageKind::Warning);
    assert!(log.info("dropped".to_string(), 0).is_none());
    assert!(log.warn("kept".to_string(), 0).is_some());
    assert!(log.err("kept too".to_string(), 0).is_some());

    log.set_verbosity(MessageKind::Error);
    assert!(log.warn("dropped".to_string(), 0).is_none());
    let (line, _) = log.err("fatal".to_string(), 0).unwrap();
    assert_eq!(line, "[ERROR]: fatal\n".to_string());
}

#[test]
fn prefixes_match_kinds() {
    assert_eq!(MessageKind::Information.as_str(), "[INFO]: ");
    assert_eq!(MessageKind::Warning.as_str(), "[WARNING]: ");
    assert_eq!(MessageKind::Error.as_str(), "[ERROR]: ");
}

#[test]
fn severity_orders_kinds() {
    assert!(MessageKind::Information.severity() < MessageKind::Warning.severity());
    assert!(MessageKind::Warning.severity() < MessageKind::Error.severity());
    assert!(MessageKind::Information < MessageKind::Error);
}
