//! Two building blocks of a vector-search server.
//!
//! An api-key gate admits requests by the key they present: [`secret`] compares
//! keys, [`policy`] holds the rules, and [`http_gate`] and [`grpc_gate`] shape a gate
//! for each of the two transports. A gate decides; forwarding a request and sending
//! a response are left to the server around it.
//!
//! The typed memory map reads a file-backed byte region as values: [`region`] is the
//! byte region, [`plain`] the values that bytes can stand for, [`mmap_type`] the views
//! of one value, of a sequence of values and of packed bits, and [`madvise`] the
//! advice given to the system about a mapping.

pub mod grpc_gate;
pub mod http_gate;
pub mod madvise;
pub mod mmap_type;
pub mod plain;
pub mod policy;
pub mod region;
pub mod secret;
