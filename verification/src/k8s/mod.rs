//! What `kubectl` and `helm` say of a cluster.

pub mod kubectl;
pub mod kubelet_serving;
pub mod transform;
