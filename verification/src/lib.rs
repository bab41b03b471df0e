//! Safe lifecycle and control-dispatch layer for host-managed background
//! services: status marshaling against the fixed numeric constants of the
//! service control manager, validated construction of status snapshots,
//! command-line quoting for launch arguments, bounded decoding of raw
//! argument buffers, and a verified model of the service database that the
//! manager, handle and control-handler layers operate against.

pub mod database;
pub mod rpc;
pub mod scmanager;
pub mod service_control_handler;
pub mod service_dispatcher;
pub mod service_manager;
pub mod service;
pub mod shell_escape;
pub mod widestring;
