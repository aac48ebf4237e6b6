//! Streams the logs of the pods behind Kubernetes workloads: the pure core
//! that decides which pods to watch, which streams to start and which lines
//! to show.
pub mod args;
pub mod k8s;
pub mod manager;
pub mod refresh;
pub mod text;
pub mod traits;
pub mod util;
