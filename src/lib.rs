pub mod driver;
pub mod extent;
pub mod lifecycle;
pub mod sim;
pub mod sync;
