pub mod builder;
pub mod messages;
pub mod probe;
pub mod slices;
pub mod target;
pub mod trace;
pub mod unit;
