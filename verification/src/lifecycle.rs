//! The stream lifecycle: the three mutating operations — create, withdraw,
//! cancel — and the two read-only projections, combined into one state
//! machine over the registry and the nonce store.
//!
//! Each operation is an atomic transition: the host runs it inside a
//! transaction, performs the asset transfer the returned amount calls for,
//! and commits everything or nothing. The host's signature-verification
//! verdict enters as `sig_valid`; the ledger clock enters as `now`. The
//! spec functions `spec_c_stream`, `spec_w_stream` and `spec_s_stream`
//! state each transition exactly: the state afterwards and the result,
//! error by error.

use vstd::prelude::*;

use crate::auth::expected_nonce;
use crate::auth::nonce_of;
use crate::auth::spec_consume_nonce;
use crate::auth::NonceTable;
use crate::auth::Signature;
use crate::errors::Error;
use crate::registry::RegistryView;
use crate::registry::StreamRegistry;
use crate::stream::Identity;
use crate::stream::Stream;
use crate::stream::StreamData;
use crate::vesting::amount_per_tick;
use crate::vesting::elapsed_ticks;
use crate::vesting::entitled;
use crate::vesting::entitled_at;
use crate::vesting::lemma_elapsed_lt_total;
use crate::vesting::lemma_entitled_bounds;
use crate::vesting::total_ticks;
use vstd::arithmetic::div_mod::lemma_div_pos_is_pos;
use vstd::arithmetic::div_mod::lemma_fundamental_div_mod;
use vstd::arithmetic::div_mod::lemma_mod_bound;
use vstd::arithmetic::mul::lemma_mul_inequality;
use vstd::arithmetic::mul::lemma_mul_is_commutative;

verus! {

/// The whole engine's abstract state: the registry and the nonce store.
pub ghost struct ContractView {
    pub reg: RegistryView,
    pub nonces: Map<Identity, u64>,
}

impl ContractView {
    /// The engine's invariant: the registry's ledger invariant.
    pub open spec fn wf(self) -> bool {
        self.reg.wf()
    }

    /// Whether a stream is registered under this id.
    pub open spec fn has_stream(self, stream_id: u64) -> bool {
        stream_id < self.reg.streams.len()
    }

    /// The immutable terms of the stream registered under this id.
    pub open spec fn stream_at(self, stream_id: u64) -> Stream {
        self.reg.streams[stream_id as int]
    }

    /// The ledger record of the stream registered under this id.
    pub open spec fn data_at(self, stream_id: u64) -> StreamData {
        self.reg.datas[stream_id as int]
    }

    /// The stored nonce of an identity, 0 if never used.
    pub open spec fn nonce_of(self, id: Identity) -> u64 {
        nonce_of(self.nonces, id)
    }
}

/// The creation transition. The signer must be the payer; the host's
/// verification verdict and the nonce rule gate the rest. On success the
/// stream is registered under the next id with a zeroed ledger record —
/// the host pulls the amount into escrow in the same transaction.
pub open spec fn spec_c_stream(
    v: ContractView,
    sig: Signature,
    sig_valid: bool,
    nonce: u64,
    stream: Stream,
) -> (ContractView, Result<u64, Error>) {
    if sig.spec_identifier() != stream.from {
        (v, Err(Error::NotAuthorized))
    } else if !sig_valid {
        (v, Err(Error::NotAuthorized))
    } else {
        let auth = spec_consume_nonce(v.nonces, sig, nonce);
        match auth.1 {
            Err(e) => (v, Err(e)),
            Ok(_) => (
                ContractView {
                    reg: RegistryView {
                        streams: v.reg.streams.push(stream),
                        datas: v.reg.datas.push(StreamData { a_withdraw: 0, cancelled: false }),
                    },
                    nonces: auth.0,
                },
                Ok(v.reg.streams.len() as u64),
            ),
        }
    }
}

/// The withdrawal transition. Only the payee may withdraw, from a stream
/// that exists, is not cancelled and is not done; then the verification
/// verdict and the nonce rule gate the settlement. On success the payee is
/// owed everything entitled at `now` that was not yet withdrawn — the
/// whole remainder once `now` has reached the end — and the ledger records
/// the new cumulative total.
pub open spec fn spec_w_stream(
    v: ContractView,
    sig: Signature,
    sig_valid: bool,
    nonce: u64,
    stream_id: u64,
    now: u64,
) -> (ContractView, Result<u64, Error>) {
    if !v.has_stream(stream_id) {
        (v, Err(Error::StreamNotExist))
    } else {
        let s = v.stream_at(stream_id);
        let d = v.data_at(stream_id);
        if sig.spec_identifier() != s.to {
            (v, Err(Error::NotAuthorized))
        } else if d.cancelled {
            (v, Err(Error::StreamCancelled))
        } else if d.a_withdraw == s.amount {
            (v, Err(Error::StreamDone))
        } else if !sig_valid {
            (v, Err(Error::NotAuthorized))
        } else {
            let auth = spec_consume_nonce(v.nonces, sig, nonce);
            match auth.1 {
                Err(e) => (v, Err(e)),
                Ok(_) => (
                    ContractView {
                        reg: RegistryView {
                            streams: v.reg.streams,
                            datas: v.reg.datas.update(
                                stream_id as int,
                                StreamData {
                                    a_withdraw: entitled(s, now) as u64,
                                    cancelled: false,
                                },
                            ),
                        },
                        nonces: auth.0,
                    },
                    Ok((entitled(s, now) - d.a_withdraw) as u64),
                ),
            }
        }
    }
}

/// The cancellation transition. Only the payer may cancel, a stream that
/// exists, allows cancellation, is not already cancelled and is not done;
/// the verification verdict gates the rest. Cancelled and Done are both
/// terminal, so a fully withdrawn stream is refused with `StreamDone` —
/// there is nothing left to refund, and no transition leaves a terminal
/// state. No nonce is consumed: a stream can be cancelled at most once, so
/// replay is structurally impossible. On success the payer is owed
/// everything not yet withdrawn — vested but unclaimed funds included —
/// and the ledger keeps the historical withdrawn total under the
/// cancelled mark.
pub open spec fn spec_s_stream(
    v: ContractView,
    sig: Signature,
    sig_valid: bool,
    stream_id: u64,
) -> (ContractView, Result<u64, Error>) {
    if !v.has_stream(stream_id) {
        (v, Err(Error::StreamNotExist))
    } else {
        let s = v.stream_at(stream_id);
        let d = v.data_at(stream_id);
        if sig.spec_identifier() != s.from {
            (v, Err(Error::NotAuthorized))
        } else if !s.able_stop {
            (v, Err(Error::StreamNotCancellable))
        } else if d.cancelled {
            (v, Err(Error::StreamCancelled))
        } else if d.a_withdraw == s.amount {
            (v, Err(Error::StreamDone))
        } else if !sig_valid {
            (v, Err(Error::NotAuthorized))
        } else {
            (
                ContractView {
                    reg: RegistryView {
                        streams: v.reg.streams,
                        datas: v.reg.datas.update(
                            stream_id as int,
                            StreamData { a_withdraw: d.a_withdraw, cancelled: true },
                        ),
                    },
                    nonces: v.nonces,
                },
                Ok((s.amount - d.a_withdraw) as u64),
            )
        }
    }
}

/// The host's ledger clock is monotone across invocations, so by the time
/// a withdrawal runs, the entitlement at `now` is never behind what an
/// earlier settlement already recorded. This is what that guarantee says
/// of one withdrawal about to run.
pub open spec fn withdraw_clock_ok(v: ContractView, stream_id: u64, now: u64) -> bool {
    (v.has_stream(stream_id) && !v.data_at(stream_id).cancelled && v.data_at(stream_id).a_withdraw
        != v.stream_at(stream_id).amount) ==> v.data_at(stream_id).a_withdraw as int <= entitled(
        v.stream_at(stream_id),
        now,
    )
}

/// The streaming engine: registry and nonce store behind the five
/// operations of the contract.
pub struct StreamingContract {
    registry: StreamRegistry,
    nonces: NonceTable,
}

impl View for StreamingContract {
    type V = ContractView;

    closed spec fn view(&self) -> ContractView {
        ContractView { reg: self.registry@, nonces: self.nonces@ }
    }
}

impl StreamingContract {
    /// A fresh engine: no stream, the next id 0, every nonce 0.
    pub fn new() -> (r: StreamingContract)
        ensures
            r@ == (ContractView {
                reg: RegistryView {
                    streams: Seq::<Stream>::empty(),
                    datas: Seq::<StreamData>::empty(),
                },
                nonces: Map::<Identity, u64>::empty(),
            }),
            r@.wf(),
    {
        StreamingContract { registry: StreamRegistry::new(), nonces: NonceTable::new() }
    }

    /// Creates a stream: [`spec_c_stream`] of the current state. Returns
    /// the new stream's id; the host pulls `stream.amount` from the payer
    /// into escrow in the same transaction and aborts it all if that
    /// transfer fails.
    pub fn c_stream(
        &mut self,
        signature: Signature,
        sig_valid: bool,
        nonce: u64,
        stream: Stream,
    ) -> (r: Result<u64, Error>)
        requires
            old(self)@.wf(),
            stream.wf(),
            !signature.is_invoker() ==> old(self)@.nonce_of(signature.spec_identifier())
                < u64::MAX,
        ensures
            final(self)@ == spec_c_stream(old(self)@, signature, sig_valid, nonce, stream).0,
            r == spec_c_stream(old(self)@, signature, sig_valid, nonce, stream).1,
            final(self)@.wf(),
    {
        let signer = signature.identifier();
        if signer != stream.from {
            return Err(Error::NotAuthorized);
        }
        if !sig_valid {
            return Err(Error::NotAuthorized);
        }
        match self.nonces.verify_and_consume_nonce(&signature, nonce) {
            Err(e) => return Err(e),
            Ok(_) => {},
        }
        // Here the host pulls stream.amount from the payer into escrow; a
        // failed transfer aborts the transaction and none of this survives.
        let id = self.registry.create(stream);
        proof {
            let post = self@.reg;
            let pre = old(self)@.reg;
            assert forall|i: int| 0 <= i < post.streams.len() implies (
            #[trigger] post.streams[i]).wf() by {
                if i < pre.streams.len() {
                    assert(pre.streams[i].wf());
                }
            }
            assert forall|i: int| 0 <= i < post.streams.len() implies (
            #[trigger] post.datas[i]).a_withdraw <= post.streams[i].amount by {
                if i < pre.streams.len() {
                    assert(pre.datas[i].a_withdraw <= pre.streams[i].amount);
                }
            }
        }
        Ok(id)
    }

    /// Withdraws from a stream: [`spec_w_stream`] of the current state at
    /// the clock reading `now`. Returns the amount owed to the payee; the
    /// host transfers it in the same transaction and aborts it all if the
    /// transfer fails.
    pub fn w_stream(
        &mut self,
        signature: Signature,
        sig_valid: bool,
        nonce: u64,
        stream_id: u64,
        now: u64,
    ) -> (r: Result<u64, Error>)
        requires
            old(self)@.wf(),
            !signature.is_invoker() ==> old(self)@.nonce_of(signature.spec_identifier())
                < u64::MAX,
            withdraw_clock_ok(old(self)@, stream_id, now),
        ensures
            final(self)@ == spec_w_stream(old(self)@, signature, sig_valid, nonce, stream_id, now).0,
            r == spec_w_stream(old(self)@, signature, sig_valid, nonce, stream_id, now).1,
            final(self)@.wf(),
    {
        let (stream, data) = match self.registry.get(stream_id) {
            Err(e) => return Err(e),
            Ok(p) => p,
        };
        let signer = signature.identifier();
        if signer != stream.to {
            return Err(Error::NotAuthorized);
        }
        if data.cancelled {
            return Err(Error::StreamCancelled);
        }
        if data.a_withdraw == stream.amount {
            return Err(Error::StreamDone);
        }
        if !sig_valid {
            return Err(Error::NotAuthorized);
        }
        match self.nonces.verify_and_consume_nonce(&signature, nonce) {
            Err(e) => return Err(e),
            Ok(_) => {},
        }
        proof {
            assert(stream.wf());
            lemma_entitled_bounds(stream, now);
        }
        let e = entitled_at(&stream, now);
        let to_pay = e - data.a_withdraw;
        // Here the host transfers to_pay to the payee; a failed transfer
        // aborts the transaction and none of this survives.
        self.registry.update_withdrawn(stream_id, e);
        proof {
            let post = self@.reg;
            let pre = old(self)@.reg;
            assert forall|i: int| 0 <= i < post.streams.len() implies (
            #[trigger] post.datas[i]).a_withdraw <= post.streams[i].amount by {
                assert(pre.datas[i].a_withdraw <= pre.streams[i].amount);
            }
        }
        Ok(to_pay)
    }

    /// Cancels a stream: [`spec_s_stream`] of the current state. Returns
    /// the amount owed back to the payer; the host transfers it in the
    /// same transaction and aborts it all if the transfer fails.
    pub fn s_stream(&mut self, signature: Signature, sig_valid: bool, stream_id: u64) -> (r: Result<
        u64,
        Error,
    >)
        requires
            old(self)@.wf(),
        ensures
            final(self)@ == spec_s_stream(old(self)@, signature, sig_valid, stream_id).0,
            r == spec_s_stream(old(self)@, signature, sig_valid, stream_id).1,
            final(self)@.wf(),
    {
        let (stream, data) = match self.registry.get(stream_id) {
            Err(e) => return Err(e),
            Ok(p) => p,
        };
        let signer = signature.identifier();
        if signer != stream.from {
            return Err(Error::NotAuthorized);
        }
        if !stream.able_stop {
            return Err(Error::StreamNotCancellable);
        }
        if data.cancelled {
            return Err(Error::StreamCancelled);
        }
        if data.a_withdraw == stream.amount {
            return Err(Error::StreamDone);
        }
        if !sig_valid {
            return Err(Error::NotAuthorized);
        }
        let refund = stream.amount - data.a_withdraw;
        // Here the host transfers the refund back to the payer; a failed
        // transfer aborts the transaction and none of this survives.
        self.registry.mark_cancelled(stream_id);
        proof {
            let post = self@.reg;
            let pre = old(self)@.reg;
            assert forall|i: int| 0 <= i < post.streams.len() implies (
            #[trigger] post.datas[i]).a_withdraw <= post.streams[i].amount by {
                assert(pre.datas[i].a_withdraw <= pre.streams[i].amount);
            }
        }
        Ok(refund)
    }

    /// The read-only projection of a stream: its terms and its ledger
    /// record, by id.
    pub fn get_stream(&self, stream_id: u64) -> (r: Result<(Stream, StreamData), Error>)
        requires
            self@.wf(),
        ensures
            self@.has_stream(stream_id) ==> r == Ok::<(Stream, StreamData), Error>(
                (self@.stream_at(stream_id), self@.data_at(stream_id)),
            ),
            !self@.has_stream(stream_id) ==> r == Err::<(Stream, StreamData), Error>(
                Error::StreamNotExist,
            ),
    {
        self.registry.get(stream_id)
    }

    /// The read-only projection of an identity's stored nonce.
    pub fn nonce(&self, id: Identity) -> (r: u64)
        ensures
            r == self@.nonce_of(id),
    {
        self.nonces.get_nonce(id)
    }
}

/// The ledger invariant as a statement: at all times, the withdrawn total
/// of every registered stream lies between 0 and the stream's amount.
pub proof fn lemma_withdrawn_within_amount(v: ContractView, stream_id: u64)
    requires
        v.wf(),
        v.has_stream(stream_id),
    ensures
        0 <= v.data_at(stream_id).a_withdraw <= v.stream_at(stream_id).amount,
{
    assert(v.reg.datas[stream_id as int].a_withdraw <= v.reg.streams[stream_id as int].amount);
}

/// The withdrawn total of a stream never decreases: a withdrawal settles
/// at least what the ledger already recorded, and a cancellation keeps the
/// historical total. `j` is any registered stream, the one operated on or
/// another.
pub proof fn lemma_withdrawn_never_decreases(
    v: ContractView,
    sig: Signature,
    sig_valid: bool,
    nonce: u64,
    stream_id: u64,
    now: u64,
    j: u64,
)
    requires
        v.wf(),
        withdraw_clock_ok(v, stream_id, now),
        v.has_stream(j),
    ensures
        spec_w_stream(v, sig, sig_valid, nonce, stream_id, now).0.data_at(j).a_withdraw
            >= v.data_at(j).a_withdraw,
        spec_s_stream(v, sig, sig_valid, stream_id).0.data_at(j).a_withdraw == v.data_at(
            j,
        ).a_withdraw,
{
    if v.has_stream(stream_id) {
        lemma_entitled_bounds(v.stream_at(stream_id), now);
    }
}

/// Idempotence at a fixed clock reading: when a withdrawal with pending
/// entitlement settles, an immediately repeated withdrawal at the same
/// `now`, before the end of the stream, succeeds with a payout of exactly
/// zero and leaves the ledger untouched.
pub proof fn lemma_withdraw_idempotent_at_fixed_time(
    v: ContractView,
    sig: Signature,
    nonce: u64,
    stream_id: u64,
    now: u64,
)
    requires
        v.wf(),
        v.has_stream(stream_id),
        sig.spec_identifier() == v.stream_at(stream_id).to,
        !v.data_at(stream_id).cancelled,
        now < v.stream_at(stream_id).end_time,
        v.data_at(stream_id).a_withdraw < entitled(v.stream_at(stream_id), now),
        nonce == expected_nonce(v.nonces, sig),
        !sig.is_invoker() ==> nonce_of(v.nonces, sig.spec_identifier()) < u64::MAX,
    ensures
        ({
            let first = spec_w_stream(v, sig, true, nonce, stream_id, now);
            let second = spec_w_stream(
                first.0,
                sig,
                true,
                expected_nonce(first.0.nonces, sig),
                stream_id,
                now,
            );
            &&& first.1 is Ok
            &&& first.1->Ok_0 > 0
            &&& second.1 == Ok::<u64, Error>(0)
            &&& second.0.reg.datas == first.0.reg.datas
        }),
{
    let s = v.stream_at(stream_id);
    let d = v.data_at(stream_id);
    let e = entitled(s, now);
    let apt = amount_per_tick(s);
    let el = elapsed_ticks(s, now);
    let tt = total_ticks(s);
    assert(s.wf());
    lemma_entitled_bounds(s, now);
    // The settled entitlement stays strictly below the amount before the
    // end: at least one tick's worth is still unvested.
    lemma_elapsed_lt_total(s, now);
    lemma_div_pos_is_pos(s.amount as int, tt);
    assert(e == apt * el);
    assert(apt >= 1 && el >= 1) by (nonlinear_arith)
        requires
            apt >= 0,
            el >= 0,
            apt * el >= 1,
    ;
    assert(e <= apt * (tt - 1)) by {
        lemma_mul_inequality(el, tt - 1, apt);
        lemma_mul_is_commutative(apt, el);
        lemma_mul_is_commutative(apt, tt - 1);
    }
    assert(apt * (tt - 1) == apt * tt - apt) by (nonlinear_arith);
    assert(apt * tt <= s.amount) by {
        lemma_fundamental_div_mod(s.amount as int, tt);
        lemma_mod_bound(s.amount as int, tt);
        lemma_mul_is_commutative(apt, tt);
    }
    assert(e < s.amount);
    let first = spec_w_stream(v, sig, true, nonce, stream_id, now);
    assert(first.1 is Ok && first.1->Ok_0 > 0);
    let second = spec_w_stream(
        first.0,
        sig,
        true,
        expected_nonce(first.0.nonces, sig),
        stream_id,
        now,
    );
    assert(second.1 == Ok::<u64, Error>(0));
    assert(second.0.reg.datas =~= first.0.reg.datas);
}

/// Cancellation is exclusive: after a cancellation commits, a second
/// cancellation of the same stream by the payer fails with
/// `StreamCancelled`, whatever the verification verdict, and changes
/// nothing.
pub proof fn lemma_cancel_exclusive(
    v: ContractView,
    sig1: Signature,
    sv1: bool,
    sig2: Signature,
    sv2: bool,
    stream_id: u64,
)
    requires
        v.wf(),
        spec_s_stream(v, sig1, sv1, stream_id).1 is Ok,
        sig2.spec_identifier() == v.stream_at(stream_id).from,
    ensures
        spec_s_stream(spec_s_stream(v, sig1, sv1, stream_id).0, sig2, sv2, stream_id).1 == Err::<
            u64,
            Error,
        >(Error::StreamCancelled),
        spec_s_stream(spec_s_stream(v, sig1, sv1, stream_id).0, sig2, sv2, stream_id).0
            == spec_s_stream(v, sig1, sv1, stream_id).0,
{
    let first = spec_s_stream(v, sig1, sv1, stream_id);
    assert(v.has_stream(stream_id));
    let v2 = first.0;
    assert(v2.has_stream(stream_id));
    assert(v2.stream_at(stream_id) == v.stream_at(stream_id));
    assert(v2.data_at(stream_id).cancelled);
}

/// A stream whose terms forbid cancellation can never be cancelled: the
/// payer's cancellation fails with `StreamNotCancellable` and changes
/// nothing.
pub proof fn lemma_cancel_needs_able_stop(
    v: ContractView,
    sig: Signature,
    sig_valid: bool,
    stream_id: u64,
)
    requires
        v.has_stream(stream_id),
        sig.spec_identifier() == v.stream_at(stream_id).from,
        !v.stream_at(stream_id).able_stop,
    ensures
        spec_s_stream(v, sig, sig_valid, stream_id).1 == Err::<u64, Error>(
            Error::StreamNotCancellable,
        ),
        spec_s_stream(v, sig, sig_valid, stream_id).0 == v,
{
}

} // verus!
