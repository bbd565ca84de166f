use vstd::prelude::*;

use crate::domain::subscriber_name::{
    check_subscriber_name, has_forbidden_char, is_blank, is_valid_subscriber_name,
    MAX_NAME_GRAPHEMES,
};
use crate::utils::{empty_reply, is_empty_reply, HttpReply};

verus! {

/// The fields of the subscription form.
pub struct FormData {
    pub email: String,
    pub name: String,
}

/// `true` when the input satisfies every constraint on a subscriber's name,
/// `false` otherwise.
pub fn is_valid_name(s: &str) -> (r: bool)
    ensures
        r == is_valid_subscriber_name(s@),
        s@.len() <= MAX_NAME_GRAPHEMES ==> (r <==> !is_blank(s@) && !has_forbidden_char(s@)),
{
    check_subscriber_name(s)
}

/// What a subscription request asks for first.
pub enum SubscribeStep {
    /// Store the subscriber.
    Insert,
    /// Answer at once with this reply.
    Reply(HttpReply),
}

/// A subscription with an invalid name is answered with `400 Bad Request`;
/// any other is stored.
pub fn subscribe(form: &FormData) -> (r: SubscribeStep)
    ensures
        is_valid_subscriber_name(form.name@) ==> r is Insert,
        !is_valid_subscriber_name(form.name@) ==> (r matches SubscribeStep::Reply(reply)
            && is_empty_reply(reply, 400)),
{
    if !is_valid_name(form.name.as_str()) {
        return SubscribeStep::Reply(empty_reply(400));
    }
    SubscribeStep::Insert
}

/// The answer once storing the subscriber succeeded or failed.
pub fn subscription_stored(stored: bool) -> (r: HttpReply)
    ensures
        stored ==> is_empty_reply(r, 200),
        !stored ==> is_empty_reply(r, 500),
{
    if stored {
        empty_reply(200)
    } else {
        empty_reply(500)
    }
}

} // verus!
