use backup_pi::app_env::EnvTimeZone;
use backup_pi::app_error::AppError;
use backup_pi::cron::Croner;
use backup_pi::digits::parse_u8;
use backup_pi::ws::ws_sender::{backup_target, text_action, TextAction};
use backup_pi::ws::{reaction_to, request_for, InternalMessage, WsEvent, WsReaction};
use backup_pi::ws_messages::incoming::{
    to_struct, BackupData, ErrorData, MessageValues, ParsedMessage, StructuredMessage,
};
use backup_pi::ws_messages::outgoing::{Response, StructuredResponse};

fn backup(name: &str, b64: &str) -> BackupData {
    BackupData { file_name: name.to_owned(), file_as_b64: b64.to_owned() }
}

#[test]
fn envelope_error_wins_over_data() {
    let envelope = StructuredMessage {
        data: Some(ParsedMessage::BackupData(backup("f", "aGVsbG8gd29ybGQ="))),
        error: Some(ErrorData::Something("bad".to_owned())),
    };
    match to_struct(Some(envelope), None) {
        Some(MessageValues::Invalid(ErrorData::Something(text))) => assert_eq!(text, "bad"),
        _ => unreachable!(),
    }
}

#[test]
fn envelope_with_data() {
    let envelope = StructuredMessage {
        data: Some(ParsedMessage::BackupData(backup("some_file_name", "aGVsbG8gd29ybGQ="))),
        error: None,
    };
    match to_struct(Some(envelope), None) {
        Some(MessageValues::Valid(ParsedMessage::BackupData(data))) => {
            assert_eq!(data.file_name, "some_file_name");
            assert_eq!(data.file_as_b64, "aGVsbG8gd29ybGQ=");
        }
        _ => unreachable!(),
    }
}

#[test]
fn empty_envelope_and_unknown_text_mean_nothing() {
    assert!(to_struct(Some(StructuredMessage { data: None, error: None }), None).is_none());
    assert!(to_struct(None, None).is_none());
    match to_struct(None, Some(ErrorData::Something("x".to_owned()))) {
        Some(MessageValues::Invalid(ErrorData::Something(text))) => assert_eq!(text, "x"),
        _ => unreachable!(),
    }
}

#[test]
fn backup_is_decoded_and_placed() {
    let (path, content) = backup_target("/backups", &backup("some_file_name", "aGVsbG8gd29ybGQ=")).unwrap();
    assert_eq!(path, "/backups/some_file_name");
    assert_eq!(content, b"hello world".to_vec());
    match backup_target("/backups", &backup("f", "not base64!")) {
        Err(AppError::B64Decode(_)) => {}
        _ => unreachable!(),
    }
}

#[test]
fn text_actions() {
    assert!(matches!(text_action("/b", None), TextAction::Nothing));
    match text_action("/b", Some(MessageValues::Invalid(ErrorData::Something("e".to_owned())))) {
        TextAction::ReportError(ErrorData::Something(text)) => assert_eq!(text, "e"),
        _ => unreachable!(),
    }
    match text_action("/b", Some(MessageValues::Valid(ParsedMessage::BackupData(backup("x.tar", "aGk="))))) {
        TextAction::Save { path, content } => {
            assert_eq!(path, "/b/x.tar");
            assert_eq!(content, b"hi".to_vec());
        }
        _ => unreachable!(),
    }
    match text_action("/b", Some(MessageValues::Valid(ParsedMessage::BackupData(backup("x", "aGk"))))) {
        TextAction::SaveFailed(AppError::B64Decode(_)) => {}
        _ => unreachable!(),
    }
}

#[test]
fn outgoing_envelopes() {
    let data = StructuredResponse::data(Response::Backup);
    assert_eq!(data.data, Some(Response::Backup));
    assert_eq!(data.error, None);
    assert!(data.unique);
    let error = StructuredResponse::_error(Response::Backup);
    assert_eq!(error.error, Some(Response::Backup));
    assert_eq!(error.data, None);
    assert!(error.unique);
    let request = request_for(InternalMessage::RequestBackup);
    assert_eq!(request.data, Some(Response::Backup));
    assert!(request.error.is_none());
}

#[test]
fn frame_reactions() {
    match reaction_to(WsEvent::Text("t".to_owned())) {
        WsReaction::HandleText(text) => assert_eq!(text, "t"),
        _ => unreachable!(),
    }
    assert!(matches!(reaction_to(WsEvent::Ping), WsReaction::RestartAutoClose));
    assert!(matches!(reaction_to(WsEvent::Close), WsReaction::CloseAndStop));
    assert!(matches!(reaction_to(WsEvent::Pong), WsReaction::Ignore));
    assert!(matches!(reaction_to(WsEvent::Binary), WsReaction::Ignore));
    assert!(matches!(reaction_to(WsEvent::Frame), WsReaction::Ignore));
}

#[test]
fn schedule_fires_at_local_download_time() {
    let utc = EnvTimeZone::new("Etc/UTC");
    // 2019-01-01 03:00 UTC
    let three = 1_546_300_800 + 3 * 3600;
    assert!(Croner::backup_due(three, &utc, (3, 0)));
    assert!(!Croner::backup_due(three + 60, &utc, (3, 0)));
    assert_eq!(Croner::tick(three, &utc, (3, 0)), Some(InternalMessage::RequestBackup));
    assert_eq!(Croner::tick(three - 60, &utc, (3, 0)), None);
    let new_york = EnvTimeZone::new("America/New_York");
    // 2019-01-01 08:00 UTC is 03:00 in New York.
    assert!(Croner::backup_due(1_546_300_800 + 8 * 3600, &new_york, (3, 0)));
    assert!(!Croner::backup_due(three, &new_york, (3, 0)));
    // A zone half an hour off UTC.
    let kolkata = EnvTimeZone::new("Asia/Kolkata");
    assert!(Croner::backup_due(1_546_300_800 + 3 * 3600 + 30 * 60, &kolkata, (9, 0)));
}

#[test]
fn u8_parsing() {
    assert_eq!(parse_u8(b"255", 0, 3), Some(255));
    assert_eq!(parse_u8(b"256", 0, 3), None);
    assert_eq!(parse_u8(b"+5", 0, 2), Some(5));
    assert_eq!(parse_u8(b"+", 0, 1), None);
    assert_eq!(parse_u8(b"", 0, 0), None);
    assert_eq!(parse_u8(b"-1", 0, 2), None);
    assert_eq!(parse_u8(b"0007", 0, 4), Some(7));
    assert_eq!(parse_u8(b"1 ", 0, 2), None);
    assert_eq!(parse_u8(b"x42", 1, 3), Some(42));
}

#[test]
fn bare_error_counts_only_without_envelope() {
    let envelope = StructuredMessage { data: None, error: None };
    assert!(to_struct(Some(envelope), Some(ErrorData::Something("ignored".to_owned()))).is_none());
}
