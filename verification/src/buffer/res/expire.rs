pub mod auto;
pub mod count;
pub mod svc;
