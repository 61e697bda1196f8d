//! A value-streaming engine: a payer escrows a fixed amount of an asset,
//! a payee withdraws it progressively over a fixed schedule of discrete
//! ticks, and the payer may cancel early when the stream allows it.
//!
//! The library is the accounting and authorization state machine alone:
//! stream creation, tick-based vesting, withdrawal settlement, cancellation
//! settlement, and per-identity replay protection through sequential nonces.
//! The host that embeds it supplies the outside world: it verifies the
//! signature on each instruction, moves the asset in and out of escrow,
//! reads the ledger clock, and guarantees that each operation commits
//! atomically or not at all. Those collaborators enter the engine only as
//! plain values: a verification verdict, a clock reading, and the payout
//! amounts the engine hands back for the host to transfer.

pub mod auth;
pub mod errors;
pub mod lifecycle;
pub mod registry;
pub mod stream;
pub mod vesting;

pub use auth::NonceTable;
pub use auth::Signature;
pub use errors::Error;
pub use lifecycle::StreamingContract;
pub use registry::StreamRegistry;
pub use stream::Identity;
pub use stream::Stream;
pub use stream::StreamData;
