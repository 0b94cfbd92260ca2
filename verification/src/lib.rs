//! A verified core for an asynchronous network of spiking "neuron" agents.
//!
//! Each agent owns a private state (energy, activity, backoff interval and a
//! list of weighted outgoing links) and exchanges scalar signals with the
//! other agents through per-agent mailboxes, publishing its own activity into
//! a shared table. The per-cycle update — noise injection, activity decay,
//! energy replenishment, stochastic link formation, threshold-triggered
//! firing and weight adaptation — is verified here over fixed-point tick
//! counts; mailboxes, the shared table and the random source are reached
//! through a small set of trusted wrappers.

pub mod channels;
pub mod fixed;
pub mod net;
pub mod neuron;
pub mod rng;
pub mod table;
