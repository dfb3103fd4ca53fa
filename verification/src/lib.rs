//! Room metrics for a bank vault monitor: readings, alerts, in-memory logging,
//! and the decisions of the receive loop.
pub mod binary32;
pub mod decimal;
pub mod logger;
pub mod logging;
pub mod metrics;
pub mod monitor;
pub mod receiver;
pub mod settings;

pub use logging::init_logger;
pub use metrics::RoomMetrics;
pub use receiver::MockReceiver;
