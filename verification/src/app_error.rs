use vstd::prelude::*;
use vstd::string::StringExecFns;

verus! {

/// The error that decoding base64 text reports.
#[verifier::external_type_specification]
#[verifier::external_body]
pub struct ExBase64DecodeError(base64::DecodeError);

/// What can go wrong in the backup client.
#[derive(Debug)]
pub enum AppError {
    /// A backup's content was not valid base64.
    B64Decode(base64::DecodeError),
    /// A backup could not be written to disk.
    FSWrite,
    /// A configured file or directory does not exist.
    FileNotFound(String),
    /// A required environment variable is not set.
    MissingEnv(String),
    /// An HTTP request failed.
    Reqwest,
    /// The websocket connection could not be opened.
    TungsteniteConnect,
    /// The websocket server answered with an unexpected status.
    WsStatus,
}

/// The text that describes an error.
pub open spec fn error_message(e: AppError) -> Seq<char> {
    match e {
        AppError::B64Decode(_) => "Base64 Decode Error"@,
        AppError::FSWrite => "FS Write error"@,
        AppError::FileNotFound(name) => "File/Directory not found: '"@ + name@ + "'"@,
        AppError::MissingEnv(name) => "missing env: '"@ + name@ + "'"@,
        AppError::Reqwest => "Reqwest Error"@,
        AppError::TungsteniteConnect => "WS Connect"@,
        AppError::WsStatus => "Invalid WS Status Code"@,
    }
}

impl AppError {
    /// The text that describes this error.
    pub fn message(&self) -> (text: String)
        ensures
            text@ == error_message(*self),
    {
        match self {
            AppError::B64Decode(_) => String::from_str("Base64 Decode Error"),
            AppError::FSWrite => String::from_str("FS Write error"),
            AppError::FileNotFound(name) => quoted("File/Directory not found: '", name),
            AppError::MissingEnv(name) => quoted("missing env: '", name),
            AppError::Reqwest => String::from_str("Reqwest Error"),
            AppError::TungsteniteConnect => String::from_str("WS Connect"),
            AppError::WsStatus => String::from_str("Invalid WS Status Code"),
        }
    }
}

/// `prefix`, then `name`, then a closing quote.
fn quoted(prefix: &str, name: &String) -> (text: String)
    ensures
        text@ == prefix@ + name@ + "'"@,
{
    let mut text = String::from_str(prefix);
    text.append(name.as_str());
    text.append("'");
    text
}

} // verus!
