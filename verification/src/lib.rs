//! Host side of a desktop-to-tablet display mirroring link: the framed wire
//! protocol, codec negotiation, the session and transport state machines and
//! the pacing decisions of the streaming loop, each with a machine-checked
//! contract.

pub mod le_bytes;
pub mod text;
pub mod wide;
pub mod codec;
pub mod protocol;
pub mod app_state;
pub mod encoder;
pub mod capture;
pub mod driver_ipc;
pub mod driver_probe;
pub mod display_probe;
pub mod transport_probe;
pub mod vdd_protocol;
pub mod vdd_ops;
pub mod vdd_service;
pub mod driver_manager;
pub mod service_manager;
pub mod linux_vdd;
pub mod host_log;
pub mod device_registry;
pub mod settings_registry;
pub mod session;
pub mod session_state;
pub mod mf_encoder;
pub mod stream_loop;
pub mod host_transport;
pub mod host;
