//! Driver logic for a USB full-speed device peripheral with dedicated packet
//! memory: endpoint allocation, interrupt-status decoding, endpoint register
//! words and transfer framing, all stated over plain values so that the code
//! that touches the hardware stays a thin shell around it.

pub mod types;
pub mod endpoint;
pub mod registers;
pub mod bus;
pub mod laws;
