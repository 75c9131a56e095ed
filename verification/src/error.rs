use vstd::prelude::*;

verus! {

/// What can go wrong at the adapter's surface.
#[derive(Debug, Clone, PartialEq, Eq)]
pub enum AdapterError {
    /// A string that has to cross the boundary holds a zero byte.
    InvalidParameter,
    /// An operation that needs a session was attempted without one.
    NotAuthenticated,
    /// The engine signalled a failure through one of its error callbacks.
    TransportError { message: Vec<u8> },
    /// The engine could not allocate a handle.
    ResourceExhausted,
}

impl AdapterError {
    /// The message of a transport error; empty for the other variants.
    pub open spec fn message_view(&self) -> Seq<u8> {
        match self {
            AdapterError::TransportError { message } => message@,
            _ => Seq::empty(),
        }
    }

    /// Whether this is a transport error.
    pub fn is_transport(&self) -> (r: bool)
        ensures
            r == (self is TransportError),
    {
        match self {
            AdapterError::TransportError { .. } => true,
            _ => false,
        }
    }
}

} // verus!
