use streaming::Error;
use streaming::Signature;
use streaming::Stream;
use streaming::StreamingContract;

fn simple_stream(amount: u64, start: u64, end: u64, tick: u64, able_stop: bool) -> Stream {
    Stream {
        from: 1,
        to: 2,
        amount,
        start_time: start,
        end_time: end,
        tick_time: tick,
        token_c_id: 7,
        able_stop,
    }
}

#[test]
fn test() {
    let mut c = StreamingContract::new();
    // The host's token ledger, kept by hand: the engine only reports the
    // amounts the host must move.
    let mut user_1_balance: u64 = 1000;
    let mut user_2_balance: u64 = 0;
    let mut contract_balance: u64 = 0;

    let stream = Stream {
        from: 1,
        to: 2,
        amount: 10,
        start_time: 0,
        end_time: 10,
        tick_time: 1,
        token_c_id: 7,
        able_stop: false,
    };

    let stream_id = c.c_stream(Signature::Invoker(1), true, 0, stream).unwrap();
    user_1_balance -= stream.amount;
    contract_balance += stream.amount;
    assert_eq!(10, contract_balance);
    assert_eq!(990, user_1_balance);

    // the ledger clock advances by 5
    let paid = c.w_stream(Signature::Invoker(2), true, 0, stream_id, 5).unwrap();
    contract_balance -= paid;
    user_2_balance += paid;
    assert_eq!(5, user_2_balance);

    let paid_again = c.w_stream(Signature::Invoker(2), true, 0, stream_id, 5).unwrap();
    contract_balance -= paid_again;
    user_2_balance += paid_again;
    assert_eq!(5, user_2_balance);
}

#[test]
fn withdraw_after_end_pays_remainder_then_done() {
    let mut c = StreamingContract::new();
    let stream = simple_stream(10, 100, 110, 1, false);
    let id = c.c_stream(Signature::Invoker(1), true, 0, stream).unwrap();

    let first = c.w_stream(Signature::Invoker(2), true, 0, id, 103).unwrap();
    assert_eq!(first, 3);

    // at or after the end, one settlement pays everything left
    let rest = c.w_stream(Signature::Invoker(2), true, 0, id, 110).unwrap();
    assert_eq!(rest, 10 - 3);

    let (_, data) = c.get_stream(id).unwrap();
    assert_eq!(data.a_withdraw, 10);

    let done = c.w_stream(Signature::Invoker(2), true, 0, id, 200);
    assert_eq!(done, Err(Error::StreamDone));
}

#[test]
fn cancel_after_partial_withdraw_refunds_rest() {
    let mut c = StreamingContract::new();
    let stream = simple_stream(10, 0, 10, 1, true);
    let id = c.c_stream(Signature::Invoker(1), true, 0, stream).unwrap();

    let withdrawn = c.w_stream(Signature::Invoker(2), true, 0, id, 3).unwrap();
    assert_eq!(withdrawn, 3);

    // cancellation seizes everything not yet withdrawn, vested or not
    let refund = c.s_stream(Signature::Invoker(1), true, id).unwrap();
    assert_eq!(refund, 10 - 3);

    let after = c.w_stream(Signature::Invoker(2), true, 0, id, 9);
    assert_eq!(after, Err(Error::StreamCancelled));

    // the ledger keeps the historical withdrawn total under the mark
    let (_, data) = c.get_stream(id).unwrap();
    assert!(data.cancelled);
    assert_eq!(data.a_withdraw, 3);
}

#[test]
fn cancel_twice_fails_with_stream_cancelled() {
    let mut c = StreamingContract::new();
    let stream = simple_stream(10, 0, 10, 1, true);
    let id = c.c_stream(Signature::Invoker(1), true, 0, stream).unwrap();

    assert_eq!(c.s_stream(Signature::Invoker(1), true, id), Ok(10));
    assert_eq!(c.s_stream(Signature::Invoker(1), true, id), Err(Error::StreamCancelled));
}

#[test]
fn cancel_of_a_done_stream_fails_with_stream_done() {
    let mut c = StreamingContract::new();
    let stream = simple_stream(10, 0, 10, 1, true);
    let id = c.c_stream(Signature::Invoker(1), true, 0, stream).unwrap();

    // the payee withdraws everything once the stream has ended
    assert_eq!(c.w_stream(Signature::Invoker(2), true, 0, id, 10).unwrap(), 10);

    // Done is terminal: there is nothing to refund and no way out of it
    assert_eq!(c.s_stream(Signature::Invoker(1), true, id), Err(Error::StreamDone));
    let (_, data) = c.get_stream(id).unwrap();
    assert!(!data.cancelled);
    assert_eq!(data.a_withdraw, 10);
}

#[test]
fn cancel_needs_cancellable_terms() {
    let mut c = StreamingContract::new();
    let stream = simple_stream(10, 0, 10, 1, false);
    let id = c.c_stream(Signature::Invoker(1), true, 0, stream).unwrap();

    assert_eq!(c.s_stream(Signature::Invoker(1), true, id), Err(Error::StreamNotCancellable));
}

#[test]
fn delegated_nonce_counts_accepted_operations() {
    let mut c = StreamingContract::new();
    assert_eq!(c.nonce(1), 0);

    let stream = simple_stream(10, 0, 10, 1, false);
    let id = c.c_stream(Signature::Ed25519(1), true, 0, stream).unwrap();
    assert_eq!(c.nonce(1), 1);

    // a replayed nonce is refused and consumes nothing
    let replay = c.c_stream(Signature::Ed25519(1), true, 0, stream);
    assert_eq!(replay, Err(Error::IncorrectNonce));
    assert_eq!(c.nonce(1), 1);

    let id2 = c.c_stream(Signature::Ed25519(1), true, 1, stream).unwrap();
    assert_eq!(c.nonce(1), 2);
    assert_ne!(id, id2);

    // the payee's delegated withdrawals count on the payee's own nonce
    assert_eq!(c.nonce(2), 0);
    let paid = c.w_stream(Signature::Account(2), true, 0, id, 4).unwrap();
    assert_eq!(paid, 4);
    assert_eq!(c.nonce(2), 1);
}

#[test]
fn self_authorized_always_requires_nonce_zero() {
    let mut c = StreamingContract::new();
    let stream = simple_stream(10, 0, 10, 1, false);

    let wrong = c.c_stream(Signature::Invoker(1), true, 3, stream);
    assert_eq!(wrong, Err(Error::IncorrectNonceForInvoker));

    // accepted self-authorized instructions consume no nonce
    let id = c.c_stream(Signature::Invoker(1), true, 0, stream).unwrap();
    assert_eq!(c.nonce(1), 0);
    let _ = c.w_stream(Signature::Invoker(2), true, 0, id, 2).unwrap();
    assert_eq!(c.nonce(2), 0);
}

#[test]
fn unknown_stream_fails() {
    let mut c = StreamingContract::new();
    assert_eq!(c.w_stream(Signature::Invoker(2), true, 0, 9, 5), Err(Error::StreamNotExist));
    assert_eq!(c.s_stream(Signature::Invoker(1), true, 9), Err(Error::StreamNotExist));
    assert_eq!(c.get_stream(9), Err(Error::StreamNotExist));
}

#[test]
fn wrong_party_is_not_authorized() {
    let mut c = StreamingContract::new();
    let stream = simple_stream(10, 0, 10, 1, true);

    // only the payer may create the stream
    let bad_create = c.c_stream(Signature::Invoker(3), true, 0, stream);
    assert_eq!(bad_create, Err(Error::NotAuthorized));

    let id = c.c_stream(Signature::Invoker(1), true, 0, stream).unwrap();

    // only the payee may withdraw, only the payer may cancel
    assert_eq!(c.w_stream(Signature::Invoker(1), true, 0, id, 5), Err(Error::NotAuthorized));
    assert_eq!(c.s_stream(Signature::Invoker(2), true, id), Err(Error::NotAuthorized));
}

#[test]
fn rejected_signature_is_not_authorized() {
    let mut c = StreamingContract::new();
    let stream = simple_stream(10, 0, 10, 1, true);

    assert_eq!(c.c_stream(Signature::Invoker(1), false, 0, stream), Err(Error::NotAuthorized));

    let id = c.c_stream(Signature::Invoker(1), true, 0, stream).unwrap();
    assert_eq!(c.w_stream(Signature::Invoker(2), false, 0, id, 5), Err(Error::NotAuthorized));
    assert_eq!(c.s_stream(Signature::Invoker(1), false, id), Err(Error::NotAuthorized));

    // a rejected instruction consumes no nonce
    assert_eq!(c.w_stream(Signature::Ed25519(2), false, 0, id, 5), Err(Error::NotAuthorized));
    assert_eq!(c.nonce(2), 0);
}

#[test]
fn vesting_holds_back_the_division_remainder_until_the_end() {
    let mut c = StreamingContract::new();
    // 10 over 3 ticks: 3 per tick, the remainder 1 only at the end
    let stream = simple_stream(10, 0, 3, 1, false);
    let id = c.c_stream(Signature::Invoker(1), true, 0, stream).unwrap();

    assert_eq!(c.w_stream(Signature::Invoker(2), true, 0, id, 2).unwrap(), 6);
    assert_eq!(c.w_stream(Signature::Invoker(2), true, 0, id, 3).unwrap(), 4);
}

#[test]
fn vesting_rounds_a_partial_final_tick_up() {
    let mut c = StreamingContract::new();
    // a window of 5 with ticks of 2 holds 3 ticks, so 9 vests 3 per tick
    let stream = simple_stream(9, 0, 5, 2, false);
    let id = c.c_stream(Signature::Invoker(1), true, 0, stream).unwrap();

    assert_eq!(c.w_stream(Signature::Invoker(2), true, 0, id, 1).unwrap(), 0);
    assert_eq!(c.w_stream(Signature::Invoker(2), true, 0, id, 2).unwrap(), 3);
    assert_eq!(c.w_stream(Signature::Invoker(2), true, 0, id, 4).unwrap(), 3);
    assert_eq!(c.w_stream(Signature::Invoker(2), true, 0, id, 5).unwrap(), 3);
}

#[test]
fn nothing_vests_before_the_start() {
    let mut c = StreamingContract::new();
    let stream = simple_stream(10, 100, 110, 1, false);
    let id = c.c_stream(Signature::Invoker(1), true, 0, stream).unwrap();

    assert_eq!(c.w_stream(Signature::Invoker(2), true, 0, id, 50).unwrap(), 0);
    assert_eq!(c.w_stream(Signature::Invoker(2), true, 0, id, 100).unwrap(), 0);
}

#[test]
fn get_stream_returns_terms_and_ledger_state() {
    let mut c = StreamingContract::new();
    let stream = simple_stream(10, 0, 10, 1, true);
    let id = c.c_stream(Signature::Invoker(1), true, 0, stream).unwrap();

    let (terms, data) = c.get_stream(id).unwrap();
    assert_eq!(terms, stream);
    assert_eq!(data.a_withdraw, 0);
    assert!(!data.cancelled);

    let _ = c.w_stream(Signature::Invoker(2), true, 0, id, 4).unwrap();
    let (terms_after, data_after) = c.get_stream(id).unwrap();
    assert_eq!(terms_after, stream);
    assert_eq!(data_after.a_withdraw, 4);
    assert!(!data_after.cancelled);
}

#[test]
fn stream_ids_count_up_from_zero() {
    let mut c = StreamingContract::new();
    let stream = simple_stream(10, 0, 10, 1, false);
    assert_eq!(c.c_stream(Signature::Invoker(1), true, 0, stream).unwrap(), 0);
    assert_eq!(c.c_stream(Signature::Invoker(1), true, 0, stream).unwrap(), 1);
    assert_eq!(c.c_stream(Signature::Invoker(1), true, 0, stream).unwrap(), 2);
}
