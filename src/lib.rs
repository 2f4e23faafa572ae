//! Stackful, one-shot, bidirectional coroutines: the verified protocol layer.
pub mod cell;
pub mod exchange;
pub mod coroutine;
pub mod generator;
pub mod transfer;
