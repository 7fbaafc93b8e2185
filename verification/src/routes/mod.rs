pub mod download;
pub mod select;
