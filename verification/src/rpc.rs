//! The shapes of the messages that cross the RPC boundary, as plain data.

pub mod common;
pub mod conv_req;
pub mod conv_svc;
pub mod req_buf;
pub mod res_buf;
