pub mod addr;
pub mod backoff;
pub mod probe;
pub mod watch;
