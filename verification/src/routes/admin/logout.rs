use vstd::prelude::*;

use crate::routes::flash::{FlashLevel, FlashMessage};
use crate::utils::{is_see_other, see_other, HttpReply};

verus! {

/// What a logout answers once the session is purged: an informational flash
/// message, and a redirect to the login page.
pub fn logout() -> (r: (FlashMessage, HttpReply))
    ensures
        r.0.level == FlashLevel::Info,
        r.0.content@ == "You have successfully logged out."@,
        is_see_other(r.1, "/login"@),
{
    (FlashMessage::info("You have successfully logged out."), see_other("/login"))
}

} // verus!
