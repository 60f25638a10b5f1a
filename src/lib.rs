//! The decision core of a federated-learning aggregator service: which
//! clients may talk to it in the current round, which global weights it
//! serves, which aggregation it tracks, and in which order it drains its
//! input sources on each wakeup.
pub mod blob;
pub mod credentials;
pub mod service;
pub mod wakeup;
