//! What becomes of a call once it has been handed to the transport: each
//! thing the transport can report, and the decision that follows from it.
//!
//! The driver that owns the connection performs the reads; every decision
//! is taken here.

use vstd::prelude::*;

use crate::error::ServiceStackError;

verus! {

/// A status in the success range, 200 to 299.
pub open spec fn is_success(status: u16) -> bool {
    200 <= status < 300
}

/// Whether `status` is in the success range.
pub fn status_is_success(status: u16) -> (yes: bool)
    ensures
        yes == is_success(status),
{
    200 <= status && status < 300
}

/// What the transport reports for a call it was asked to issue. `B` is
/// the transport's handle on the body, which has not been read yet.
pub enum Delivery<B> {
    /// No response arrived: connection, timeout, malformed response.
    Failed(reqwest::Error),
    /// A response arrived, with this status.
    Responded { status: u16, body: B },
}

/// A response whose status is outside the success range, before its body
/// has been read.
pub struct Rejection {
    status: u16,
}

impl Rejection {
    /// The status is never one of success.
    #[verifier::type_invariant]
    spec fn status_is_failure(self) -> bool {
        !is_success(self.status)
    }

    /// The status of the response.
    pub closed spec fn code(&self) -> u16 {
        self.status
    }

    /// The status of the response.
    pub fn status(&self) -> (status: u16)
        ensures
            status == self.code(),
            !is_success(status),
    {
        proof {
            use_type_invariant(self);
        }
        self.status
    }

    /// The error that ends the call, given the body as text, or `None`
    /// where the body could not be read: the status and that text, the
    /// empty text for an unreadable body.
    pub fn into_error(self, text: Option<String>) -> (error: ServiceStackError)
        ensures
            !is_success(self.code()),
            error matches ServiceStackError::ApiError { status, message } && status == self.code()
                && message@ == match text {
                Some(t) => t@,
                None => Seq::<char>::empty(),
            },
    {
        proof {
            use_type_invariant(&self);
        }
        let message = match text {
            Some(t) => t,
            None => String::new(),
        };
        ServiceStackError::ApiError { status: self.status, message }
    }
}

/// What the driver does after the transport has reported.
pub enum Directive<B> {
    /// Stop: the call has failed with this error.
    Fail(ServiceStackError),
    /// Read the body as text and hand it to [`Rejection::into_error`]. The
    /// body is not decoded as the response type.
    ReadErrorText(Rejection, B),
    /// Read the body, decode it as the response type and hand the outcome
    /// to [`complete`].
    DecodeBody(B),
}

/// Decides what follows a delivery. A transport failure ends the call as
/// it is; otherwise the status alone decides how the body is read, and the
/// body is handed back untouched.
pub fn on_delivery<B>(delivery: Delivery<B>) -> (next: Directive<B>)
    ensures
        match delivery {
            Delivery::Failed(cause) => next == Directive::<B>::Fail(
                ServiceStackError::RequestError(cause),
            ),
            Delivery::Responded { status, body } => if is_success(status) {
                next == Directive::DecodeBody(body)
            } else {
                next matches Directive::ReadErrorText(rejection, unread) && rejection.code()
                    == status && unread == body
            },
        },
{
    match delivery {
        Delivery::Failed(cause) => Directive::Fail(ServiceStackError::RequestError(cause)),
        Delivery::Responded { status, body } => {
            if status_is_success(status) {
                Directive::DecodeBody(body)
            } else {
                Directive::ReadErrorText(Rejection { status }, body)
            }
        },
    }
}

/// What reading and decoding the body of a successful response gave.
pub enum Payload<R> {
    /// The body had the shape of the response type.
    Decoded(R),
    /// The transport failed while the body was read.
    Unreadable(reqwest::Error),
    /// The body did not have the shape of the response type.
    Malformed(serde_json::Error),
}

/// The result of a call whose response had a success status: the decoded
/// response, or the one error that tells why there is none.
pub fn complete<R>(payload: Payload<R>) -> (result: Result<R, ServiceStackError>)
    ensures
        result == match payload {
            Payload::Decoded(response) => Ok::<R, ServiceStackError>(response),
            Payload::Unreadable(cause) => Err(ServiceStackError::RequestError(cause)),
            Payload::Malformed(cause) => Err(ServiceStackError::JsonError(cause)),
        },
{
    match payload {
        Payload::Decoded(response) => Ok(response),
        Payload::Unreadable(cause) => Err(ServiceStackError::RequestError(cause)),
        Payload::Malformed(cause) => Err(ServiceStackError::JsonError(cause)),
    }
}

} // verus!
