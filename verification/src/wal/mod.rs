pub mod log;
