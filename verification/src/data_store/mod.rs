pub mod aws;
pub mod error;
pub mod flow;
