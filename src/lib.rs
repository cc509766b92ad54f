//! Watches a settlement chain's contract logs and folds the token registry and
//! the priority-operation queue they describe into an in-memory state.
//!
//! - `pubdata`: the binary payloads of priority requests.
//! - `abi`: contract-ABI decoding of event data.
//! - `events`: the two events read, decoded from log data.
//! - `state`: the registry and the priority queue.
//! - `watcher`: the block cursor, the log queries and the poll decisions.
pub mod abi;
pub mod bytes;
pub mod events;
pub mod pubdata;
pub mod state;
pub mod watcher;
