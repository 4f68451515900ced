//! The decisions of a reverse proxy that starts an ECS service when a request
//! arrives and stops it when no request has been seen for a while.
//!
//! Nothing here performs I/O. Each asynchronous procedure is a state machine: it
//! is handed the event that answers its last action, and says which action comes
//! next.

pub mod address;
pub mod ecs;
pub mod ecs_laws;
pub mod ecs_service_scaler;
pub mod exchange_laws;
pub mod headers;
pub mod proxy_laws;
pub mod proxy_service;
pub mod scaler_laws;
pub mod service_scaler;
pub mod text;
pub mod text_laws;
pub mod uri;
pub mod worker_laws;

pub use address::IpAddr;
pub use ecs::ServiceScalerOptions;
pub use ecs_service_scaler::{run_scaler, RequestGuard, ServiceScaler};
pub use proxy_service::{proxy_service_fn, ProxyServiceOptions};
