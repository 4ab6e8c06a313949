pub mod del;
pub mod get;
pub mod set;
