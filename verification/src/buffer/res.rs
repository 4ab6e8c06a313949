pub mod btree;
pub mod cmd;
pub mod expire;
