//! Properties of the engine that relate its operations to one another.
use vstd::prelude::*;
use crate::contract::{with_status, PaymentContract};
use crate::fee::{fee_of, lemma_split_fee};
use crate::types::{Error, PaymentStatus};

verus! {

/// A settlement moves exactly the requested amount: the fee is the
/// requested amount times the fee rate over 10000, truncated, and the
/// requester receives the rest, so fee and net add up to the amount.
pub proof fn lemma_settlement_conserves_amount(
    c: PaymentContract,
    payment_id: u64,
    payer: Seq<char>,
    payer_balance: Option<i128>,
)
    requires
        c.wf(),
        c.settlement_outcome(payment_id, payer, payer_balance) is Ok,
    ensures
        ({
            let s = c.settlement_outcome(payment_id, payer, payer_balance)->Ok_0;
            let req = c.lookup_request(payment_id)->0;
            &&& s.fee_amount + s.net_amount == req.amount
            &&& s.fee_amount == fee_of(req.amount as int, req.fee_percentage as int)
            &&& 0 <= s.fee_amount <= req.amount
        }),
{
    c.lemma_requests_valid();
    let req = c.lookup_request(payment_id)->0;
    assert(c.lookup_request(payment_id) is Some);
    lemma_split_fee(req.amount as int, req.fee_percentage as int);
}

/// Once a request is settled, every further settlement of it fails with
/// `PaymentAlreadyCompleted`, whoever the payer and whatever the balance.
pub proof fn lemma_settles_at_most_once(
    pre: PaymentContract,
    post: PaymentContract,
    payment_id: u64,
    payer: Seq<char>,
    other_payer: Seq<char>,
    payer_balance: Option<i128>,
)
    requires
        pre.lookup_request(payment_id) is Some,
        PaymentContract::settled(&pre, &post, payment_id, payer),
    ensures
        post.lookup_request(payment_id)->0.status == PaymentStatus::Completed,
        post.settlement_outcome(payment_id, other_payer, payer_balance) == Err::<
            crate::types::SettlementView,
            Error,
        >(Error::PaymentAlreadyCompleted),
{
    assert(post.requests_view()[payment_id - 1] == with_status(
        pre.requests_view()[payment_id - 1],
        PaymentStatus::Completed,
    ));
}

/// A pending request refuses, with `NotAuthorized`, every payer outside its
/// authorized addresses, whatever the balance.
pub proof fn lemma_unauthorized_payer_refused(
    c: PaymentContract,
    payment_id: u64,
    payer: Seq<char>,
    payer_balance: Option<i128>,
)
    requires
        c.lookup_request(payment_id) is Some,
        c.lookup_request(payment_id)->0.status == PaymentStatus::Pending,
        !c.lookup_request(payment_id)->0.authorized_addresses.contains(payer),
    ensures
        c.settlement_outcome(payment_id, payer, payer_balance) == Err::<
            crate::types::SettlementView,
            Error,
        >(Error::NotAuthorized),
{
}

/// Once a request is settled, its requester or the contract's owner can no
/// longer cancel it: the attempt fails with `PaymentAlreadyCompleted`.
pub proof fn lemma_no_cancel_after_settlement(
    pre: PaymentContract,
    post: PaymentContract,
    payment_id: u64,
    payer: Seq<char>,
    caller: Seq<char>,
)
    requires
        pre.lookup_request(payment_id) is Some,
        PaymentContract::settled(&pre, &post, payment_id, payer),
        pre.owner_view() is Some,
        caller == pre.lookup_request(payment_id)->0.requester || pre.owner_view() == Some(caller),
    ensures
        post.cancel_outcome(payment_id, caller) == Err::<(), Error>(Error::PaymentAlreadyCompleted),
{
    assert(post.requests_view()[payment_id - 1] == with_status(
        pre.requests_view()[payment_id - 1],
        PaymentStatus::Completed,
    ));
}

/// The requester of a pending request can cancel it, once the contract has
/// an owner.
pub proof fn lemma_requester_cancels_pending(c: PaymentContract, payment_id: u64)
    requires
        c.lookup_request(payment_id) is Some,
        c.lookup_request(payment_id)->0.status == PaymentStatus::Pending,
        c.owner_view() is Some,
    ensures
        c.cancel_outcome(payment_id, c.lookup_request(payment_id)->0.requester) == Ok::<(), Error>(()),
{
}

/// A cancelled request can be neither settled nor cancelled again.
pub proof fn lemma_cancelled_is_final(
    c: PaymentContract,
    payment_id: u64,
    payer: Seq<char>,
    payer_balance: Option<i128>,
    caller: Seq<char>,
)
    requires
        c.lookup_request(payment_id) is Some,
        c.lookup_request(payment_id)->0.status == PaymentStatus::Cancelled,
    ensures
        c.settlement_outcome(payment_id, payer, payer_balance) is Err,
        c.cancel_outcome(payment_id, caller) is Err,
{
}

} // verus!
