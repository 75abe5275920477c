//! Bootstrap of a Vulkan rendering context and dispatch of window events,
//! with the decisions of both stated and proved.

pub mod versioning;
pub mod device;
pub mod bootstrap;
pub mod validation;
pub mod platforms;
pub mod error;
pub mod dispatch;
