//! Gesture detection over a shared record.
//!
//! A requester and a worker talk through one record: the requester writes a
//! touch path and a request into it, the worker carries the request out and
//! leaves a packed result, and the requester waits for the worker's state to
//! say so. This library holds the record with its byte layout, the two sides
//! of the protocol as steps on a record that the caller holds exclusively,
//! the packing of results, and the compass geometry behind the fling
//! direction. Locks, threads, clocks and sleeps are the caller's: every
//! function here returns at once and tells the caller what to do next.

pub mod client_request;
pub mod detect_gesture_dummy;
pub mod detection_client;
pub mod detection_server;
pub mod direction;
pub mod direction_result;
pub mod generic_gesture_type;
pub mod gesture_detection;
pub mod memory_layout;
pub mod packed_result;
pub mod point;
pub mod rotation_direction;
pub mod server_state;
pub mod shared_memory;
pub mod test_data;
mod text;
