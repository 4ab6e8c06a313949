pub mod conv;
pub mod req;
