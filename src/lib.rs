//! A log transport that formats log lines and hands them to a datagram
//! sender, either at once or through a queue that a background worker drains.

pub mod clock;
pub mod level;
pub mod queue;
pub mod drain;
pub mod logger;

pub use clock::{now_rfc3339, stamp_at};
pub use level::Level;
pub use queue::MessageQueue;
pub use drain::{CycleView, DrainCycle};
pub use logger::{format_line, Delivery, UdpLogger, Writer};
