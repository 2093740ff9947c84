//! A one-shot supervisor for a bundled "backend" sidecar executable.
//!
//! On application startup the host environment asks the supervisor what to do
//! next, performs each requested action (spawning the backend as a child
//! process, registering a diagnostic logging sink in debug builds), and
//! reports the outcome back. The supervisor decides the next step; every
//! failure is fatal and aborts startup. Once setup has completed, the
//! supervisor deliberately retains no handle to the spawned child: the backend
//! runs unsupervised for the rest of the application's lifetime.
//!
//! The host side (process creation, logging sinks, the GUI event loop) lives
//! outside this crate; the crate holds only the decision logic, with proofs
//! that a child is spawned exactly once per startup, that an aborted startup
//! never reaches the running state, and that the logging sink is active after
//! setup exactly in debug configurations.

pub mod supervisor;
pub mod trace;
