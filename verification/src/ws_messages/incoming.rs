use vstd::prelude::*;

verus! {

/// A file that the server sends to be stored.
#[derive(Debug)]
pub struct BackupData {
    /// Name under which the file is stored.
    pub file_name: String,
    /// Content of the file, in standard base64 with padding.
    pub file_as_b64: String,
}

/// A message that carries data.
#[derive(Debug)]
pub enum ParsedMessage {
    BackupData(BackupData),
}

/// A message that reports an error of the server.
#[derive(Debug)]
pub enum ErrorData {
    Something(String),
}

/// What an incoming message turned out to be.
#[derive(Debug)]
pub enum MessageValues {
    Valid(ParsedMessage),
    Invalid(ErrorData),
}

/// The envelope in which the server sends data or an error.
#[derive(Debug)]
pub struct StructuredMessage {
    pub data: Option<ParsedMessage>,
    pub error: Option<ErrorData>,
}

/// What an incoming text means, given how it parsed: as an envelope
/// (`structured`), or, when it is no envelope, as a bare error (`bare_error`).
pub open spec fn message_meaning(
    structured: Option<StructuredMessage>,
    bare_error: Option<ErrorData>,
) -> Option<MessageValues> {
    match structured {
        Some(envelope) => match envelope.error {
            Some(error) => Some(MessageValues::Invalid(error)),
            None => match envelope.data {
                Some(data) => Some(MessageValues::Valid(data)),
                None => None,
            },
        },
        None => match bare_error {
            Some(error) => Some(MessageValues::Invalid(error)),
            None => None,
        },
    }
}

/// Classifies an incoming text from the ways it parsed.
///
/// `structured` is the text read as an envelope, when it is one; `bare_error`
/// is the text read as a bare error report, which counts only when the text
/// is no envelope. An envelope's error wins over its data; an envelope with
/// neither, and a text that is neither, mean nothing.
pub fn to_struct(structured: Option<StructuredMessage>, bare_error: Option<ErrorData>) -> (r: Option<MessageValues>)
    ensures
        r == message_meaning(structured, bare_error),
{
    match structured {
        Some(envelope) => {
            if let Some(error) = envelope.error {
                return Some(MessageValues::Invalid(error));
            }
            if let Some(data) = envelope.data {
                return Some(MessageValues::Valid(data));
            }
            None
        },
        None => match bare_error {
            Some(error) => Some(MessageValues::Invalid(error)),
            None => None,
        },
    }
}

/// An envelope decides alone: its error wins over its data, and a reading of
/// the same text as a bare error report does not count.
pub proof fn lemma_envelope_decides(envelope: StructuredMessage, bare_error: Option<ErrorData>)
    ensures
        message_meaning(Some(envelope), bare_error) == message_meaning(Some(envelope), None),
        envelope.error matches Some(error) ==> message_meaning(Some(envelope), bare_error) == Some(
            MessageValues::Invalid(error),
        ),
{
}

} // verus!
