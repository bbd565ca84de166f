use vstd::prelude::*;

use crate::routes::delivery::{
    next_action, next_state, event_allowed, ActionView, DeliveryAction, DeliveryEvent,
    NewsletterDelivery,
};
use crate::utils::{empty_reply, is_empty_reply, HttpReply};

verus! {

/// Why publishing a newsletter issue failed.
pub enum PublishError {
    /// Something outside the request went wrong; the text says what.
    UnexpectedError(String),
}

impl PublishError {
    /// The status the error is answered with.
    pub fn status_code(&self) -> (r: u16)
        ensures
            r == 500,
    {
        match self {
            PublishError::UnexpectedError(_) => 500,
        }
    }

    /// The text the error displays.
    pub fn message(&self) -> (r: String)
        ensures
            match self {
                PublishError::UnexpectedError(m) => r@ == m@,
            },
    {
        match self {
            PublishError::UnexpectedError(m) => m.clone(),
        }
    }
}

/// The body of a request that publishes a newsletter issue.
pub struct BodyData {
    pub title: String,
    pub content: Content,
}

/// The two renderings of an issue.
pub struct Content {
    pub html: String,
    pub text: String,
}

/// What publishing asks for next.
pub enum NewsletterStep {
    /// Send the issue to this address.
    Send(String),
    /// Stop with this error.
    Fail(PublishError),
    /// The issue went out: answer with this reply.
    Done(HttpReply),
}

/// The message of the error that stops publishing when sending to `email` fails.
pub open spec fn send_failure_message(email: Seq<char>) -> Seq<char> {
    "Failed to send newsletter issue to "@ + email
}

/// Moves the publication of an issue to the confirmed subscribers on by one
/// event: the delivery decides whom to send to; a failed send ends the request
/// with an unexpected error, and a complete delivery with `200 OK`.
pub fn publish_newsletter(delivery: &mut NewsletterDelivery, event: DeliveryEvent) -> (r: NewsletterStep)
    requires
        event_allowed(old(delivery)@, event),
    ensures
        final(delivery)@ == next_state(old(delivery)@, event),
        match next_action(old(delivery)@, event) {
            ActionView::Send(email) => r matches NewsletterStep::Send(m) && m@ == email,
            ActionView::Abort(email) => r matches NewsletterStep::Fail(PublishError::UnexpectedError(m))
                && m@ == send_failure_message(email),
            ActionView::Complete => r matches NewsletterStep::Done(reply) && is_empty_reply(reply, 200),
        },
{
    match delivery.step(event) {
        DeliveryAction::Send(email) => NewsletterStep::Send(email),
        DeliveryAction::Abort(email) => {
            let mut message = "Failed to send newsletter issue to ".to_owned();
            message.append(email.as_str());
            NewsletterStep::Fail(PublishError::UnexpectedError(message))
        },
        DeliveryAction::Complete => NewsletterStep::Done(empty_reply(200)),
    }
}

} // verus!
