//! The commands of the administration programs that the tools run.
pub mod awx;
pub mod crictl;
pub mod drift;
pub mod esxi;
pub mod helm;
pub mod k3s;
pub mod kubernetes;
pub mod names;
