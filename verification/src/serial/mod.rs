//! The serial link: wire format, adapter interface, send side and receive side.

pub mod adapter;
pub mod frame;
pub mod link;
pub mod mock;
pub mod platform;
pub mod transfer;
pub mod transport;

pub use adapter::{Burst, Command, DmaUsart};
pub use link::Link;
pub use mock::MockUsart;
pub use transfer::{ReceiveStage, Step, Transfer};
pub use transport::Serial;
