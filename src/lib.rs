//! Host-side adapter for session services that run as WebAssembly guests.
//!
//! The library decides everything the host does with a guest: how message
//! recipients are encoded across the ABI, how the version cells are read and
//! checked, how a payload is handed to the guest (allocate, write, call,
//! free), how a trap poisons an instance, and how the guest's imported calls
//! are decoded from a snapshot of its memory. The embedding runtime performs
//! the calls that these decisions name and reports their outcomes back.

pub mod abi;
pub mod bridge;
pub mod cli_opts;
pub mod instance;
pub mod recipient;
pub mod room_id;
pub mod stdio;
