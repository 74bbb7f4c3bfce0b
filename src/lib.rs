//! A lifecycle manager for a native real-time-communication SDK.
//!
//! The library decides: it holds the SDK's lifecycle state and the handle of
//! the native instance, says which native call may be made next, marshals the
//! configuration into native properties, and turns native result codes into
//! structured errors. The caller performs the native dispatch itself and
//! hands each result back.
pub mod text;
pub mod error;
pub mod binding;
pub mod marshal;
pub mod manager;
pub mod laws;

pub use error::ZoomSDKError;
pub use marshal::ZoomSessionConfig;
pub use manager::{LifecycleState, ZoomSDKManager};
