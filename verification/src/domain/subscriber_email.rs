use vstd::prelude::*;

verus! {

/// Whether `validator::validate_email` accepts the string (the HTML5 rules for
/// an e-mail address, with IDN domains and address literals).
pub uninterp spec fn email_is_valid(s: Seq<char>) -> bool;

/// The message of the error returned for a string that is not an e-mail address.
pub open spec fn invalid_email_message(s: Seq<char>) -> Seq<char> {
    s + " is not a valid subscriber email."@
}

/// Calls `validator::validate_email` on `s`.
/// Trusted: the result is the named `email_is_valid` of the string; and, as
/// the first lines of `validate_email` show, an empty string, a string without
/// `'@'` and a string that starts with `'@'` (whose part before the last `'@'`
/// is empty or holds an `'@'`, which the user-part pattern refuses) are refused.
#[verifier::external_body]
fn validate_email_str(s: &str) -> (r: bool)
    ensures
        r == email_is_valid(s@),
        s@.len() == 0 ==> !r,
        !s@.contains('@') ==> !r,
        (s@.len() > 0 && s@[0] == '@') ==> !r,
{
    validator::validate_email(s)
}

/// A subscriber's e-mail address that `validate_email` accepts.
pub struct SubscriberEmail(String);

impl View for SubscriberEmail {
    type V = Seq<char>;

    closed spec fn view(&self) -> Seq<char> {
        self.0@
    }
}

impl SubscriberEmail {
    #[verifier::type_invariant]
    spec fn wf(self) -> bool {
        email_is_valid(self.0@)
    }

    /// Builds the result of `parse` from the outcome of the validation of `s`.
    pub fn from_validation(s: &str, valid: bool) -> (r: Result<SubscriberEmail, String>)
        requires
            valid == email_is_valid(s@),
        ensures
            r is Ok <==> valid,
            r matches Ok(email) ==> email@ == s@,
            r matches Err(message) ==> message@ == invalid_email_message(s@),
    {
        if valid {
            Ok(SubscriberEmail(s.to_owned()))
        } else {
            let mut message = s.to_owned();
            message.append(" is not a valid subscriber email.");
            Err(message)
        }
    }

    /// Accepts `s` when it is a valid e-mail address.
    pub fn parse(s: &str) -> (r: Result<SubscriberEmail, String>)
        ensures
            r is Ok <==> email_is_valid(s@),
            r matches Ok(email) ==> email@ == s@,
            r matches Err(message) ==> message@ == invalid_email_message(s@),
            s@.len() == 0 ==> r is Err,
            !s@.contains('@') ==> r is Err,
            (s@.len() > 0 && s@[0] == '@') ==> r is Err,
    {
        let valid = validate_email_str(s);
        SubscriberEmail::from_validation(s, valid)
    }

    /// The address as a string slice.
    pub fn as_ref(&self) -> (r: &str)
        ensures
            r@ == self@,
            email_is_valid(r@),
    {
        proof {
            use_type_invariant(self);
        }
        self.0.as_str()
    }

    /// The address as it is displayed.
    pub fn to_string(&self) -> (r: String)
        ensures
            r@ == self@,
    {
        self.0.clone()
    }
}


/// The message of a refused address starts with the address itself, followed
/// by " is not a valid subscriber email.".
pub proof fn law_invalid_email_message(s: Seq<char>)
    ensures
        invalid_email_message(s).subrange(0, s.len() as int) == s,
        invalid_email_message(s).subrange(s.len() as int, invalid_email_message(s).len() as int)
            == " is not a valid subscriber email."@,
{
    assert(invalid_email_message(s).subrange(0, s.len() as int) =~= s);
    assert(invalid_email_message(s).subrange(s.len() as int, invalid_email_message(s).len() as int)
        =~= " is not a valid subscriber email."@);
}

} // verus!
