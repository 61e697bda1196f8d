use vstd::prelude::*;

verus! {

/// A party to a stream: payer, payee, or the invoker of an operation.
/// The host resolves addresses and key material; the engine only ever
/// compares identities and keys its nonce store by them.
pub type Identity = u64;

/// The immutable terms of a stream, fixed by `c_stream` and never mutated
/// or deleted afterwards.
#[derive(Clone, Copy, Debug, PartialEq, Eq, Structural)]
pub struct Stream {
    /// The payer: the identity whose funds are escrowed.
    pub from: Identity,
    /// The payee: the identity entitled to withdraw.
    pub to: Identity,
    /// The total escrowed amount.
    pub amount: u64,
    /// When vesting starts.
    pub start_time: u64,
    /// When the full amount is vested; must lie after `start_time`.
    pub end_time: u64,
    /// Every `tick_time` units of time a new tick vests; must be positive.
    pub tick_time: u64,
    /// The token contract holding the asset. The engine never reads it;
    /// it only routes the host's transfers.
    pub token_c_id: u64,
    /// Whether the payer may cancel the stream.
    pub able_stop: bool,
}

impl Stream {
    /// The schedule constraints every stream must satisfy: the window is
    /// non-empty and ticks have positive duration.
    pub open spec fn wf(self) -> bool {
        self.start_time < self.end_time && self.tick_time > 0
    }

    /// Runtime check of [`Stream::wf`], for callers outside verified code.
    pub fn is_wf(&self) -> (r: bool)
        ensures
            r == self.wf(),
    {
        self.start_time < self.end_time && self.tick_time > 0
    }
}

/// The mutable ledger state of a stream, co-created zeroed with its
/// [`Stream`] and mutated only by withdrawal and cancellation.
#[derive(Clone, Copy, Debug, PartialEq, Eq, Structural)]
pub struct StreamData {
    /// The cumulative amount withdrawn by the payee so far.
    pub a_withdraw: u64,
    /// Whether the stream was cancelled.
    pub cancelled: bool,
}

} // verus!
