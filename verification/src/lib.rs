//! The decisions of a Kubernetes device plugin that hands PKCS#11 devices to pods.
//!
//! Everything here works on plain values: the device plugin protocol's messages, the
//! configuration, and the outcomes of I/O that a caller has performed.  Sockets, processes
//! and gRPC live outside, in the program that drives this library.

pub mod device_id;
pub mod messages;
pub mod naming;
pub mod plugin;
pub mod registration;
pub mod serving;
pub mod state;
pub mod supervisor;
pub mod uds;
pub mod watch;
