pub mod file_logger;
pub mod traits;
