pub mod key;
pub mod persistence;
