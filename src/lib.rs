//! A relay engine for publish/subscribe channels of a relational store.
//!
//! A worker owns one mapping from an input channel to an output channel,
//! subscribes to the input channel, and republishes every payload it
//! receives, unchanged, on the output channel. The decisions of a worker are
//! a state machine over the events that the surrounding process reports;
//! the process performs the actions that the machine asks for.
pub mod topology;
pub mod sql;
pub mod relay;
pub mod marks;
pub mod supervisor;
