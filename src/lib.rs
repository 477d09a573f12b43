//! A mutable mutual-TLS trust store, a self-delimiting JSON value-stream
//! codec, and an append-only causal log of commutative operations.
pub mod codec;
pub mod counter;
pub mod journal;
pub mod trust;
