pub mod svc;
