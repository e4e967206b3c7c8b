//! Metering and pricing core of a mesh payment client: turns a routing
//! table and traffic counters into one signed debt change per neighbour,
//! and picks the gateway through which a device leaves the mesh.

pub mod address;
pub mod amount;
pub mod counters;
pub mod route;
pub mod debts;
pub mod settings;
pub mod exits;
pub mod snapshot;
pub mod watcher;
