//! Orchestration core for a desktop control surface that manages six
//! independent blockchain node daemons: first-run bootstrap of the on-disk
//! state tree, construction of one RPC client descriptor per daemon from the
//! configuration record, routing of commands to the matching daemon with
//! uniform error normalization, and a best-effort, fixed-order shutdown
//! sequence. The surrounding shell performs the filesystem, network and
//! process I/O; every decision and every seeded artifact is produced - and
//! specified - here.

pub mod bootstrap;
pub mod config;
pub mod context;
pub mod daemon;
pub mod dispatch;
pub mod pid;
pub mod registry;
pub mod shutdown;
