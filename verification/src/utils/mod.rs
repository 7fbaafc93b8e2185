pub mod aws;
pub mod constants;
pub mod datafusion;
pub mod text;
pub mod utils;
