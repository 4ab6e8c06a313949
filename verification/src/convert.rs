pub mod buffer;
pub mod svc;
