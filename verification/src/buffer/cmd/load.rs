pub mod req;
