//! How a request of the server is answered.
use vstd::prelude::*;

verus! {

/// What is sent back to the sender of a request.
#[derive(Debug)]
pub enum Reply<R> {
    Respond(R),
    /// The error that [`PendingReply::error`] gives.
    RespondWithError,
}

/// A request whose reply is being sent.
#[derive(Debug)]
pub struct PendingReply<E> {
    error: Option<E>,
}

impl<E> View for PendingReply<E> {
    type V = Option<E>;

    closed spec fn view(&self) -> Option<E> {
        self.error
    }
}

/// The reply to a request, given what its handler came to.
pub fn respond_to_request<R, E>(response: Result<R, E>) -> (r: (Reply<R>, PendingReply<E>))
    ensures
        match response {
            Ok(response) => r.0 == Reply::Respond(response) && r.1@ is None,
            Err(error) => r.0 is RespondWithError && r.1@ == Some(error),
        },
{
    match response {
        Ok(response) => (Reply::Respond(response), PendingReply { error: None }),
        Err(error) => (Reply::RespondWithError, PendingReply { error: Some(error) }),
    }
}

impl<E> PendingReply<E> {
    /// The error that the handler came to.
    pub fn error(&self) -> (r: Option<&E>)
        ensures
            r == match self@ {
                Some(error) => Some(&error),
                None => None,
            },
    {
        self.error.as_ref()
    }

    /// What the request came to, once it is known whether its reply could be sent. A failure
    /// to send comes before the error of the handler.
    pub fn finish(self, sent: Result<(), E>) -> (r: Result<(), E>)
        ensures
            r == match (sent, self@) {
                (Err(error), _) => Err(error),
                (Ok(()), Some(error)) => Err(error),
                (Ok(()), None) => Ok(()),
            },
    {
        match sent {
            Err(error) => Err(error),
            Ok(()) => match self.error {
                Some(error) => Err(error),
                None => Ok(()),
            },
        }
    }
}

}
