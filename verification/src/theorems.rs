//! What holds of the ledger across its operations, stated over the same
//! outcome functions that the operations' contracts use.

use vstd::prelude::*;
use crate::backend::{deposit_amount, CoinView};
use crate::backend::{Env, InstructionView, MessageInfo, Response};
use crate::contract::{
    authorized, change_portion_outcome, committed, deposit_outcome, execute_outcome,
    execute_post, instantiate_outcome, send_to_wallet_post, set_owner_outcome, state_info,
};
use crate::msg::ExecuteMsg;
use crate::state::ConfigStore;
use crate::decimal::{lemma_portion_bounded, portion_of, portions_sum_to_one, Decimal};
use crate::error::ContractError;
use crate::msg::InstantiateMsg;
use crate::state::StateView;

verus! {

/// An operation that is refused leaves the store exactly as it was and
/// answers with the error; one that succeeds leaves a record whose portions
/// add up to 1.0.
pub proof fn refusal_changes_nothing(
    pre: ConfigStore,
    post: ConfigStore,
    outcome: Result<StateView, ContractError>,
    instructions: Seq<InstructionView>,
    r: Result<Response, ContractError>,
)
    requires
        committed(pre, post, outcome, instructions, r),
    ensures
        outcome matches Err(e) ==> post == pre && r == Err::<Response, ContractError>(e),
        outcome is Ok ==> r is Ok && post.wf() && post.record is Some,
{
}

/// When the owner asks for portions that add up to 1.0, the change succeeds,
/// and a query of the configuration then shows exactly those portions, with
/// everything else as before.
pub proof fn change_portion_is_reflected(s: StateView, a: Decimal, b: Decimal)
    requires
        portions_sum_to_one(a, b),
    ensures
        change_portion_outcome(Some(s), s.owner, a, b) matches Ok(t) && t.wf() && state_info(
            Some(t),
        ) == Ok::<StateView, ContractError>(StateView { anchor_portion: a, luna_portion: b, ..s }),
{
}

/// Portions that do not add up to 1.0 are refused with `PortionError`, both
/// when the owner asks to change them and at setup.
pub proof fn invalid_portions_are_refused(
    s: StateView,
    a: Decimal,
    b: Decimal,
    sender: Seq<char>,
    msg: InstantiateMsg,
)
    requires
        !portions_sum_to_one(a, b),
        msg.anchor_portion == a,
        msg.luna_portion == b,
    ensures
        change_portion_outcome(Some(s), s.owner, a, b) == Err::<StateView, ContractError>(
            ContractError::PortionError,
        ),
        instantiate_outcome(sender, msg) == Err::<StateView, ContractError>(
            ContractError::PortionError,
        ),
{
}

/// Every operation that succeeds in changing the configuration leaves its
/// portions adding up to exactly 1.0.
pub proof fn portions_stay_unit(
    s: StateView,
    sender: Seq<char>,
    a: Decimal,
    b: Decimal,
    address: Seq<char>,
    address_valid: bool,
    funds: Seq<CoinView>,
    msg: InstantiateMsg,
)
    requires
        s.wf(),
    ensures
        change_portion_outcome(Some(s), sender, a, b) matches Ok(t) ==> t.wf(),
        set_owner_outcome(Some(s), sender, address, address_valid) matches Ok(t) ==> t.wf(),
        deposit_outcome(Some(s), funds) matches Ok(t) ==> t.wf(),
        instantiate_outcome(sender, msg) matches Ok(t) ==> t.wf(),
{
}

/// Funds that hold no coin of the tracked denomination amount to a deposit
/// of zero.
pub proof fn no_matching_coin_is_zero(funds: Seq<CoinView>, denom: Seq<char>)
    requires
        forall|i: int| 0 <= i < funds.len() ==> (#[trigger] funds[i]).denom != denom,
    ensures
        deposit_amount(funds, denom) == 0,
    decreases funds.len(),
{
    if funds.len() > 0 {
        let rest = funds.drop_first();
        assert forall|i: int| 0 <= i < rest.len() implies (#[trigger] rest[i]).denom != denom by {
            assert(rest[i] == funds[i + 1]);
        }
        no_matching_coin_is_zero(rest, denom);
    }
}

/// A deposit that amounts to zero of the tracked denomination is refused
/// with `InsufficientFunds`; any other deposit succeeds, and changes nothing
/// but the total.
pub proof fn deposit_needs_funds(s: StateView, funds: Seq<CoinView>)
    ensures
        deposit_amount(funds, s.denom) == 0 ==> deposit_outcome(Some(s), funds) == Err::<
            StateView,
            ContractError,
        >(ContractError::InsufficientFunds),
        deposit_amount(funds, s.denom) > 0 ==> (deposit_outcome(Some(s), funds) matches Ok(t)
            && t == StateView { total_deposit: t.total_deposit, ..s }),
{
}

/// The configuration after a run of deposits; one that is refused leaves it
/// as it was.
pub open spec fn after_deposits(s: StateView, deposits: Seq<Seq<CoinView>>) -> StateView
    decreases deposits.len(),
{
    if deposits.len() == 0 {
        s
    } else {
        let before = after_deposits(s, deposits.drop_last());
        match deposit_outcome(Some(before), deposits.last()) {
            Ok(t) => t,
            Err(_) => before,
        }
    }
}

/// The sum, over the deposits of a run that succeed, of the part that each
/// routes to the first destination.
pub open spec fn routed_sum(s: StateView, deposits: Seq<Seq<CoinView>>) -> nat
    decreases deposits.len(),
{
    if deposits.len() == 0 {
        0
    } else {
        let d = deposit_amount(deposits.last(), s.denom);
        let part = if d == 0 {
            0nat
        } else {
            portion_of(d, s.anchor_portion) as nat
        };
        routed_sum(s, deposits.drop_last()) + part
    }
}

/// After any run of deposits the total has grown by exactly the sum of the
/// parts routed to the first destination, and nothing else has changed. In
/// particular the total never shrinks.
pub proof fn total_is_sum_of_routed_parts(s: StateView, deposits: Seq<Seq<CoinView>>)
    requires
        s.wf(),
    ensures
        after_deposits(s, deposits) == (StateView {
            total_deposit: s.total_deposit + routed_sum(s, deposits),
            ..s
        }),
        after_deposits(s, deposits).total_deposit >= s.total_deposit,
    decreases deposits.len(),
{
    if deposits.len() > 0 {
        total_is_sum_of_routed_parts(s, deposits.drop_last());
        let d = deposit_amount(deposits.last(), s.denom);
        lemma_portion_bounded(d, s.anchor_portion);
    }
}

/// A caller other than the owner is refused with `Unauthorized` wherever the
/// owner is asked for: handing the ledger over, changing the portions, and
/// transferring to the wallet.
pub proof fn only_owner_may_administer(
    s: StateView,
    sender: Seq<char>,
    a: Decimal,
    b: Decimal,
    address: Seq<char>,
    address_valid: bool,
)
    requires
        sender != s.owner,
    ensures
        authorized(Some(s), sender) == Err::<StateView, ContractError>(
            ContractError::Unauthorized,
        ),
        set_owner_outcome(Some(s), sender, address, address_valid) == Err::<
            StateView,
            ContractError,
        >(ContractError::Unauthorized),
        change_portion_outcome(Some(s), sender, a, b) == Err::<StateView, ContractError>(
            ContractError::Unauthorized,
        ),
        forall|amount: u128, r: Result<Response, ContractError>|
            send_to_wallet_post(Some(s), sender, amount, r) ==> r == Err::<
                Response,
                ContractError,
            >(ContractError::Unauthorized),
{
}

/// The owner is admitted: with a valid address the hand-over succeeds and
/// the new owner is the one named.
pub proof fn owner_may_hand_over(s: StateView, address: Seq<char>)
    ensures
        authorized(Some(s), s.owner) == Ok::<StateView, ContractError>(s),
        set_owner_outcome(Some(s), s.owner, address, true) == Ok::<StateView, ContractError>(
            StateView { owner: address, ..s },
        ),
{
}

/// Whatever request is carried out: when its outcome is a configuration,
/// the store holds exactly that configuration afterwards and the answer is
/// `Ok`; when its outcome is an error, the store is what it was and the
/// answer is that error.
pub proof fn execute_follows_outcome(
    pre: ConfigStore,
    post: ConfigStore,
    env: Env,
    info: MessageInfo,
    msg: ExecuteMsg,
    address_valid: bool,
    r: Result<Response, ContractError>,
)
    requires
        execute_post(pre, post, env, info, msg, address_valid, r),
    ensures
        match execute_outcome(pre@, info, msg, address_valid) {
            Ok(s) => post@ == Some(s) && r is Ok,
            Err(e) => post == pre && r == Err::<Response, ContractError>(e),
        },
{
}

/// A caller other than the owner who asks to hand the ledger over, to change
/// the portions or to transfer to the wallet is refused with `Unauthorized`,
/// and the store is what it was.
pub proof fn stranger_is_refused(
    pre: ConfigStore,
    post: ConfigStore,
    env: Env,
    info: MessageInfo,
    msg: ExecuteMsg,
    address_valid: bool,
    r: Result<Response, ContractError>,
)
    requires
        pre@ matches Some(s) && info.sender@ != s.owner,
        msg is SetOwner || msg is ChangePortion || msg is SendToWallet,
        execute_post(pre, post, env, info, msg, address_valid, r),
    ensures
        r == Err::<Response, ContractError>(ContractError::Unauthorized),
        post == pre,
{
}

/// A deposit and a withdrawal do not look at the caller: with the same
/// funds, whoever sends the request leaves the same store behind and gets
/// the same answer.
pub proof fn deposit_and_withdrawal_are_open(
    pre: ConfigStore,
    post: ConfigStore,
    env: Env,
    info: MessageInfo,
    other: MessageInfo,
    msg: ExecuteMsg,
    address_valid: bool,
    r: Result<Response, ContractError>,
)
    requires
        msg is Deposit || msg is Withdraw,
        info.funds_view() == other.funds_view(),
    ensures
        execute_post(pre, post, env, info, msg, address_valid, r) == execute_post(
            pre,
            post,
            env,
            other,
            msg,
            address_valid,
            r,
        ),
{
}

/// The configuration after a run of requests, each with the caller's data
/// and the backend's verdict on an address; a request that is refused leaves
/// it as it was.
pub open spec fn after_requests(s: StateView, calls: Seq<(MessageInfo, ExecuteMsg, bool)>)
    -> StateView
    decreases calls.len(),
{
    if calls.len() == 0 {
        s
    } else {
        let before = after_requests(s, calls.drop_last());
        let call = calls.last();
        match execute_outcome(Some(before), call.0, call.1, call.2) {
            Ok(t) => t,
            Err(_) => before,
        }
    }
}

/// The sum, over the deposits of a run of requests that succeed, of the
/// part that each routes to the first destination, by the portion in force
/// when it arrives.
pub open spec fn routed_by_requests(s: StateView, calls: Seq<(MessageInfo, ExecuteMsg, bool)>)
    -> nat
    decreases calls.len(),
{
    if calls.len() == 0 {
        0
    } else {
        let before = after_requests(s, calls.drop_last());
        let call = calls.last();
        let d = deposit_amount(call.0.funds_view(), before.denom);
        let part = if call.1 is Deposit && d > 0 {
            portion_of(d, before.anchor_portion) as nat
        } else {
            0nat
        };
        routed_by_requests(s, calls.drop_last()) + part
    }
}

/// After any run of requests the total has grown by exactly the sum of the
/// first parts of the deposits that succeeded. Requests of the other kinds,
/// and requests that are refused, add nothing; the tracked denomination
/// stays, and the portions still add up to 1.0.
pub proof fn total_is_sum_over_requests(
    s: StateView,
    calls: Seq<(MessageInfo, ExecuteMsg, bool)>,
)
    requires
        s.wf(),
    ensures
        after_requests(s, calls).wf(),
        after_requests(s, calls).denom == s.denom,
        after_requests(s, calls).total_deposit == s.total_deposit + routed_by_requests(s, calls),
    decreases calls.len(),
{
    if calls.len() > 0 {
        total_is_sum_over_requests(s, calls.drop_last());
        let before = after_requests(s, calls.drop_last());
        let d = deposit_amount(calls.last().0.funds_view(), before.denom);
        lemma_portion_bounded(d, before.anchor_portion);
    }
}

} // verus!
