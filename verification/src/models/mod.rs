pub mod error;
pub mod item;
