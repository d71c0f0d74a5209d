use vstd::prelude::*;

verus! {

/// A request to the server, sent as is or inside a `StructuredResponse`.
#[derive(Debug, Clone, Copy, PartialEq, Eq, Structural)]
pub enum Response {
    Backup,
}

/// The envelope in which requests go to the server.
#[derive(Debug)]
pub struct StructuredResponse {
    pub data: Option<Response>,
    pub error: Option<Response>,
    pub unique: bool,
}

impl StructuredResponse {
    /// The envelope that carries `data`.
    pub fn data(data: Response) -> (envelope: StructuredResponse)
        ensures
            envelope.data == Some(data),
            envelope.error is None,
            envelope.unique,
    {
        StructuredResponse { data: Some(data), error: None, unique: true }
    }

    /// The envelope that carries `data` as an error.
    pub fn _error(data: Response) -> (envelope: StructuredResponse)
        ensures
            envelope.error == Some(data),
            envelope.data is None,
            envelope.unique,
    {
        StructuredResponse { error: Some(data), data: None, unique: true }
    }
}

} // verus!
