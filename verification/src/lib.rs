//! Control plane for named log-collection jobs.
//!
//! Each job is an external process that streams log data into a target file.
//! This library holds the part that decides: the registry of components, the
//! life cycle of each component (idle, active, idle again), the bookkeeping
//! of current and previous target paths, and the answers given to `start`,
//! `stop` and `status` requests.
//!
//! The library never touches a process or a file. Where a process has to be
//! launched it hands its caller a [`SpawnOrder`](logger::command::SpawnOrder)
//! and is told how the launch went; where a process has to go it hands the
//! caller the handle. A handle is a value of a type `H` that the caller
//! picks. The controller owns the handle of every active component; it gives
//! a handle up when the component is stopped or started anew, and it never
//! drops one.
//!
//! Every operation takes the controller by `&mut`: the caller holds it
//! exclusively from the first step of an operation to the last, behind
//! whatever lock it shares the controller with.
//!
//! Status reports list the components in the order in which the controller
//! was given them when it was made.

pub mod logger;
