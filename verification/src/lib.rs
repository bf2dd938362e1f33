//! DMA-backed serial transport for a keyboard controller's two module links:
//! outbound frames are queued in a fixed buffer and sent as one burst, inbound
//! frames are received in two chained bursts, a fixed header and a body whose
//! length the header announces.

pub mod serial;
