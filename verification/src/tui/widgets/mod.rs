pub mod field;
pub mod path_hint;
pub mod worker_info;
