pub mod envelope;
pub mod error;
pub mod laws;
pub mod lifecycle;
pub mod mailbox;
pub mod run_loop;
