//! Building blocks of a gasless transaction relayer: chain configuration,
//! the rotating pool of signing accounts, the forward-request codec, the
//! per-chain processor and the request lifecycle.
pub mod configs;
pub mod primitives;
pub mod processor;
pub mod relay;
pub mod rotation;
