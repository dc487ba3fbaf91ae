use vstd::prelude::*;

verus! {

/// The kinds of failure a caller branches on.
#[derive(Clone, Copy, Debug, PartialEq, Eq, Structural)]
pub enum ErrorKind {
    /// The request did not complete, or its body was not JSON.
    Transport,
    /// The body matched none of the known response shapes.
    Decode,
    /// The service reported a structured error.
    Service,
    /// The service reported a list of messages.
    Messages,
}

/// Every way an operation can fail.
#[derive(Debug)]
pub enum NovuError {
    Transport { reason: String },
    Decode,
    Service { status: i64, error: Option<String>, message: String },
    Messages { messages: Vec<String> },
}

impl NovuError {
    pub open spec fn spec_kind(&self) -> ErrorKind {
        match self {
            NovuError::Transport { .. } => ErrorKind::Transport,
            NovuError::Decode => ErrorKind::Decode,
            NovuError::Service { .. } => ErrorKind::Service,
            NovuError::Messages { .. } => ErrorKind::Messages,
        }
    }

    pub fn kind(&self) -> (r: ErrorKind)
        ensures
            r == self.spec_kind(),
    {
        match self {
            NovuError::Transport { .. } => ErrorKind::Transport,
            NovuError::Decode => ErrorKind::Decode,
            NovuError::Service { .. } => ErrorKind::Service,
            NovuError::Messages { .. } => ErrorKind::Messages,
        }
    }

    /// The status that the service reported, for a service error.
    pub fn status(&self) -> (r: Option<i64>)
        ensures
            r == (match self {
                NovuError::Service { status, .. } => Some(*status),
                _ => None,
            }),
    {
        match self {
            NovuError::Service { status, .. } => Some(*status),
            _ => None,
        }
    }

    /// The human-readable text of the error.
    pub fn message(&self) -> (r: String)
        ensures
            match self {
                NovuError::Transport { reason } => r == *reason,
                NovuError::Service { message, .. } => r == *message,
                NovuError::Messages { messages } => if messages@.len() > 0 {
                    r == messages@[0]
                } else {
                    r@.len() == 0
                },
                NovuError::Decode => r@ == "response body matches no known shape"@,
            },
    {
        match self {
            NovuError::Transport { reason } => reason.clone(),
            NovuError::Service { message, .. } => message.clone(),
            NovuError::Messages { messages } => {
                if messages.len() > 0 {
                    messages[0].clone()
                } else {
                    String::new()
                }
            },
            NovuError::Decode => String::from_str("response body matches no known shape"),
        }
    }
}

} // verus!
