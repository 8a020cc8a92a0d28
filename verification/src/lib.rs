//! Verified core of a BLE-to-CAN ISO-TP bridge.
//!
//! The crate covers the logic of a firmware that lets a Bluetooth LE client
//! exchange arbitrary-length diagnostic PDUs with CAN bus nodes over an
//! ISO-15765-2 (ISO-TP) transport:
//!
//! * [`ble_protocol`] — the framed command protocol spoken over the GATT
//!   write characteristic, and the response framing for notifications.
//! * [`frames`] — the ISO-TP frame layer: single, first, consecutive and
//!   flow-control frames on classic CAN.
//! * [`isotp_handler`] — the per-session ISO-TP state machine: segmentation,
//!   reassembly, flow control, pacing and sequence discipline.
//! * [`isotp_ble_bridge`] — the registry of sessions keyed by filter id, the
//!   staging buffer for chunked uploads, and the routing of CAN frames.
//! * [`can_manager`] — the CAN dispatch decisions: filter pre-match, bounded
//!   ingress and egress queues, and the interrupt notification triage.
//!
//! All I/O (GATT, timers, the CAN controller) stays outside: callers feed
//! frames and commands in as plain values and perform the returned actions.

pub mod ble_protocol;
pub mod bytes;
pub mod can_manager;
pub mod frames;
pub mod heapless_buffer;
pub mod heapless_map;
pub mod isotp_ble_bridge;
pub mod isotp_handler;
pub mod laws;
