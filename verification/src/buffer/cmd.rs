pub mod load;
pub mod save;
