pub mod get;
pub mod post;
