pub mod convert;
