pub mod admin;
pub mod delivery;
pub mod flash;
pub mod login;
pub mod newsletters;
pub mod subscriptions;
