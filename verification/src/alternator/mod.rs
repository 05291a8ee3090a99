//! The key-value backend that speaks the managed service's protocol on a
//! wide-column cluster.

pub mod consistency;
pub mod context;
