pub mod cmd;
