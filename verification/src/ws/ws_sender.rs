use crate::app_error::AppError;
use crate::ws_messages::incoming::{BackupData, ErrorData, MessageValues, ParsedMessage};
use base64::Engine;
use vstd::prelude::*;
use vstd::string::StringExecFns;

verus! {

/// The bytes that the standard base64 alphabet with padding decodes `text`
/// to, if `text` is valid.
pub uninterp spec fn base64_standard_decode(text: Seq<char>) -> Option<Seq<u8>>;

/// Calls `Engine::decode` of `base64::engine::general_purpose::STANDARD`.
/// Claimed: the outcome is a function of the text alone; it succeeds exactly
/// when the named decoding exists, and then gives its bytes.
#[verifier::external_body]
fn decode_base64(text: &str) -> (r: Result<Vec<u8>, base64::DecodeError>)
    ensures
        r is Ok <==> base64_standard_decode(text@) is Some,
        r matches Ok(bytes) ==> base64_standard_decode(text@) == Some(bytes@),
{
    base64::engine::general_purpose::STANDARD.decode(text)
}

/// The path at which a backup named `file_name` is stored under `location`.
pub open spec fn backup_path(location: Seq<char>, file_name: Seq<char>) -> Seq<char> {
    location + "/"@ + file_name
}

/// A backup is stored under its whole name, directly inside the backup
/// location: the path is the location, one slash, then the file name with
/// nothing cut off, whatever their lengths.
pub proof fn lemma_backup_path_keeps_whole_name(location: Seq<char>, file_name: Seq<char>)
    ensures
        backup_path(location, file_name).len() == location.len() + 1 + file_name.len(),
        backup_path(location, file_name).take(location.len() as int) == location,
        backup_path(location, file_name)[location.len() as int] == '/',
        backup_path(location, file_name).skip(location.len() as int + 1) == file_name,
{
    reveal_strlit("/");
    let p = backup_path(location, file_name);
    assert(p.take(location.len() as int) =~= location);
    assert(p.skip(location.len() as int + 1) =~= file_name);
}

/// Where a backup goes and what is written there: the file name under the
/// backup location, and the decoded content. Fails when the content is not
/// valid base64.
pub fn backup_target(location_backup: &str, backup_data: &BackupData) -> (r: Result<(String, Vec<u8>), AppError>)
    ensures
        match r {
            Ok((path, content)) => {
                &&& path@ == backup_path(location_backup@, backup_data.file_name@)
                &&& path@ == location_backup@ + "/"@ + backup_data.file_name@
                &&& base64_standard_decode(backup_data.file_as_b64@) == Some(content@)
            },
            Err(AppError::B64Decode(_)) => base64_standard_decode(backup_data.file_as_b64@) is None,
            Err(_) => false,
        },
{
    let mut path = String::from_str(location_backup);
    path.append("/");
    path.append(backup_data.file_name.as_str());
    match decode_base64(backup_data.file_as_b64.as_str()) {
        Ok(content) => Ok((path, content)),
        Err(e) => Err(AppError::B64Decode(e)),
    }
}

/// What the client does about an incoming text, once it is classified.
#[derive(Debug)]
pub enum TextAction {
    /// The text meant nothing.
    Nothing,
    /// The server reported an error: log it.
    ReportError(ErrorData),
    /// Write `content` to the file `path`.
    Save { path: String, content: Vec<u8> },
    /// A backup came but cannot be stored: log the error.
    SaveFailed(AppError),
}

/// The action for an incoming text whose meaning is `message`, with backups
/// stored under `location_backup`.
pub fn text_action(location_backup: &str, message: Option<MessageValues>) -> (action: TextAction)
    ensures
        match message {
            None => action is Nothing,
            Some(MessageValues::Invalid(error)) => action == TextAction::ReportError(error),
            Some(MessageValues::Valid(ParsedMessage::BackupData(data))) => match base64_standard_decode(data.file_as_b64@) {
                Some(bytes) => action matches TextAction::Save { path, content }
                    && path@ == backup_path(location_backup@, data.file_name@)
                    && path@ == location_backup@ + "/"@ + data.file_name@ && content@ == bytes,
                None => action matches TextAction::SaveFailed(AppError::B64Decode(_)),
            },
        },
{
    match message {
        None => TextAction::Nothing,
        Some(MessageValues::Invalid(error)) => TextAction::ReportError(error),
        Some(MessageValues::Valid(ParsedMessage::BackupData(data))) => match backup_target(location_backup, &data) {
            Ok((path, content)) => TextAction::Save { path, content },
            Err(e) => TextAction::SaveFailed(e),
        },
    }
}

} // verus!
