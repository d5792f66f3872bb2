use vstd::prelude::*;

verus! {

/// The structured failures that a boundary operation can surface.
#[derive(Debug, Clone, Copy, PartialEq, Eq, Structural)]
pub enum ErrorKind {
    /// The configuration could not be marshalled for the boundary.
    ConfigInvalid,
    /// Creation returned the null handle without reporting a reason.
    ConnectionSetupFailed,
    /// Start returned a falsy result without reporting a reason.
    StartFailed,
    /// An input could not be marshalled (for instance an embedded terminator
    /// byte), or the operation is not allowed in the client's state.
    InvalidInput,
    /// A returned payload is not valid structured data.
    MalformedResponse,
    /// The exporting side broke its contract: a null where a value is
    /// guaranteed, or an error reported beside a successful-looking result.
    ProtocolViolation,
    /// An error reported by the exporting side, carried verbatim.
    Other,
}

/// A failure of a boundary operation: its kind and a readable message.
#[derive(Debug, Clone)]
pub struct GomaxError {
    pub kind: ErrorKind,
    pub message: String,
}

impl GomaxError {
    pub fn new(kind: ErrorKind, message: String) -> (r: GomaxError)
        ensures
            r.kind == kind,
            r.message@ == message@,
    {
        GomaxError { kind, message }
    }

    /// Builds an error whose message is a fixed text.
    pub fn with_text(kind: ErrorKind, text: &str) -> (r: GomaxError)
        ensures
            r.kind == kind,
            r.message@ == text@,
    {
        GomaxError { kind, message: text.to_owned() }
    }

    pub fn kind(&self) -> (r: ErrorKind)
        ensures
            r == self.kind,
    {
        self.kind
    }

    /// The message, as the error's textual form.
    pub fn to_string(&self) -> (r: String)
        ensures
            r@ == self.message@,
    {
        self.message.clone()
    }
}

} // verus!
