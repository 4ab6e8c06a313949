pub mod cmd;
pub mod res;
pub mod vecdeque;
