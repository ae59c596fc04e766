//! What holds of the commands as a whole.
pub mod accepted;
pub mod admitted;
pub mod awx;
pub mod awx_requests;
pub mod awx_words;
pub mod bodies;
pub mod calls;
pub mod crictl;
pub mod crictl_words;
pub mod helm;
pub mod helm_words;
pub mod hosts;
pub mod k3s;
pub mod k3s_words;
pub mod kubectl_words;
pub mod kubernetes;
pub mod query;
pub mod refused;
pub mod requests;
pub mod responses;
pub mod shown;
pub mod tables;
pub mod words;
