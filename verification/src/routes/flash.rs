use vstd::prelude::*;

verus! {

/// The level a flash message was sent with.
#[derive(Debug, Clone, Copy, PartialEq, Eq, Structural)]
pub enum FlashLevel {
    Debug,
    Info,
    Success,
    Warning,
    Error,
}

/// A message shown once on the next page the user visits.
pub struct FlashMessage {
    pub level: FlashLevel,
    pub content: String,
}

impl FlashMessage {
    /// An informational message.
    pub fn info(content: &str) -> (r: FlashMessage)
        ensures
            r.level == FlashLevel::Info,
            r.content@ == content@,
    {
        FlashMessage { level: FlashLevel::Info, content: content.to_owned() }
    }

    /// An error message.
    pub fn error(content: &str) -> (r: FlashMessage)
        ensures
            r.level == FlashLevel::Error,
            r.content@ == content@,
    {
        FlashMessage { level: FlashLevel::Error, content: content.to_owned() }
    }
}

} // verus!
