//! A tracker of pending transmissions: for every item that was requested from
//! the network and has not arrived yet, it records which peers are known to
//! hold the item and which callers wait for it.
//!
//! - [`Pending`] is the tracker as tasks share it: a handle on two tables
//!   behind locks.
//! - [`PendingTable`] and [`WaiterTable`] are the two tables, each specified by
//!   the maps of [`model`].
//! - [`laws`] states what the operations of the tables have in common, and
//!   [`history`] what holds of every interleaving of concurrent calls.
//! - [`PeerAddr`] and [`PeerSet`] are the addresses of peers and sets of them;
//!   [`Signal`] is what a waiting caller is woken by.
//! - [`sync`] and [`signal`] hold what is taken on trust of the locks and of
//!   the channels.
//! - [`DPCPredicate`] names a predicate of the payment scheme.

pub mod addr;
pub mod history;
pub mod laws;
pub mod model;
pub mod peer_set;
pub mod pending;
pub mod pending_table;
pub mod predicate;
pub mod signal;
pub mod sync;
pub mod waiter_table;

pub use addr::PeerAddr;
pub use peer_set::PeerSet;
pub use pending::Pending;
pub use pending_table::PendingTable;
pub use predicate::DPCPredicate;
pub use signal::{notify_all, tally, Signal};
pub use waiter_table::WaiterTable;
