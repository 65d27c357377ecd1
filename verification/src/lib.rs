//! Client-side core for a remote batch-compute service and its companion
//! object storage: task submission payloads, the task lifecycle state
//! machine, the constants wire codec, hardware-constraint encoding, and
//! the request shapes of the remote API.
pub mod client;
pub mod compute;
pub mod config;
pub mod storage;
pub mod text;
