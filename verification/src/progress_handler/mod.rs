pub mod traits;
