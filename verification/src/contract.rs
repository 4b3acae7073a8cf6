//! The operations of the ledger. Each takes the store and what the backend
//! tells about the call, and answers with the instructions to dispatch. An
//! operation that fails leaves the store as it was.

use vstd::prelude::*;
use crate::anchor::deposit_stable_json;
use crate::backend::{
    coins_view, deposit_amount, find_deposit, Coin, CoinView, Env, Instruction, InstructionView,
    MessageInfo, Response, SmartQuery, SmartQueryView,
};
use crate::decimal::{
    apply_portion, is_unit_split, lemma_split_within_amount, portion_of, portions_sum_to_one,
    Decimal,
};
use crate::error::ContractError;
use crate::msg::{ExecuteMsg, InstantiateMsg, QueryMsg};
use crate::state::{ConfigStore, State, StateView};
use crate::wire::{cw20_balance_json, cw20_send_json, encode_cw20_balance, encode_cw20_send};

verus! {

/// The denomination into which the second part of a deposit is converted.
pub open spec fn ask_denom() -> Seq<char> {
    "uluna"@
}

/// How an operation ends: on `Ok` the store holds the new configuration and
/// the answer carries exactly `instructions`; on `Err` the store is what it
/// was and the answer is that error.
pub open spec fn committed(
    pre: ConfigStore,
    post: ConfigStore,
    outcome: Result<StateView, ContractError>,
    instructions: Seq<InstructionView>,
    r: Result<Response, ContractError>,
) -> bool {
    match outcome {
        Ok(s) => post@ == Some(s) && post.wf() && (r matches Ok(resp) && resp@ == instructions),
        Err(e) => post == pre && r == Err::<Response, ContractError>(e),
    }
}

/// The stored configuration, for a caller who must be its owner.
pub open spec fn authorized(store: Option<StateView>, sender: Seq<char>) -> Result<
    StateView,
    ContractError,
> {
    match store {
        None => Err(ContractError::NotInitialized),
        Some(s) => if s.owner == sender {
            Ok(s)
        } else {
            Err(ContractError::Unauthorized)
        },
    }
}

/// The configuration that a setup request of `sender` creates.
pub open spec fn instantiate_outcome(sender: Seq<char>, msg: InstantiateMsg) -> Result<
    StateView,
    ContractError,
> {
    if portions_sum_to_one(msg.anchor_portion, msg.luna_portion) {
        Ok(
            StateView {
                owner: sender,
                denom: msg.denom@,
                anchor_portion: msg.anchor_portion,
                luna_portion: msg.luna_portion,
                anchor_address: msg.anchor_address@,
                token_address: msg.token_address@,
                total_deposit: 0,
            },
        )
    } else {
        Err(ContractError::PortionError)
    }
}

/// The configuration after `sender` asks for the portions `a` and `b`.
pub open spec fn change_portion_outcome(
    store: Option<StateView>,
    sender: Seq<char>,
    a: Decimal,
    b: Decimal,
) -> Result<StateView, ContractError> {
    match authorized(store, sender) {
        Err(e) => Err(e),
        Ok(s) => if portions_sum_to_one(a, b) {
            Ok(StateView { anchor_portion: a, luna_portion: b, ..s })
        } else {
            Err(ContractError::PortionError)
        },
    }
}

/// The configuration after `sender` asks to hand the ledger over to
/// `address`, which the backend found valid or not.
pub open spec fn set_owner_outcome(
    store: Option<StateView>,
    sender: Seq<char>,
    address: Seq<char>,
    address_valid: bool,
) -> Result<StateView, ContractError> {
    match authorized(store, sender) {
        Err(e) => Err(e),
        Ok(s) => if address_valid {
            Ok(StateView { owner: address, ..s })
        } else {
            Err(ContractError::InvalidAddress)
        },
    }
}

/// The configuration after a deposit of `funds`: the part of the tracked
/// denomination that goes to the first destination is added to the total.
pub open spec fn deposit_outcome(store: Option<StateView>, funds: Seq<CoinView>) -> Result<
    StateView,
    ContractError,
> {
    match store {
        None => Err(ContractError::NotInitialized),
        Some(s) => {
            let d = deposit_amount(funds, s.denom);
            if d == 0 {
                Err(ContractError::InsufficientFunds)
            } else {
                Ok(
                    StateView {
                        total_deposit: (s.total_deposit + portion_of(d, s.anchor_portion)) as nat,
                        ..s
                    },
                )
            }
        },
    }
}

/// The two instructions of a deposit, in order: `amount_a` of the tracked
/// denomination into the first destination, then the conversion of
/// `amount_b`.
pub open spec fn deposit_instructions(s: StateView, amount_a: u128, amount_b: u128) -> Seq<
    InstructionView,
> {
    seq![
        InstructionView::Execute {
            contract_addr: s.anchor_address,
            funds: seq![CoinView { denom: s.denom, amount: amount_a }],
            msg: deposit_stable_json(),
        },
        InstructionView::Swap {
            offer_coin: CoinView { denom: s.denom, amount: amount_b },
            ask_denom: ask_denom(),
        },
    ]
}

/// The instructions that a deposit of `funds` emits under the stored
/// configuration.
pub open spec fn deposit_emits(store: Option<StateView>, funds: Seq<CoinView>) -> Seq<
    InstructionView,
> {
    match store {
        None => Seq::empty(),
        Some(s) => {
            let d = deposit_amount(funds, s.denom);
            deposit_instructions(
                s,
                portion_of(d, s.anchor_portion) as u128,
                portion_of(d, s.luna_portion) as u128,
            )
        },
    }
}

/// The instruction of a withdrawal: the token contract is told to send
/// what `payload` describes.
pub open spec fn withdraw_instructions(s: StateView, payload: Seq<u8>) -> Seq<InstructionView> {
    seq![
        InstructionView::Execute {
            contract_addr: s.token_address,
            funds: Seq::<CoinView>::empty(),
            msg: payload,
        },
    ]
}

/// The payload of a withdrawal of `amount`: a token transfer to the first
/// destination, tagged with the ledger's own balance query.
pub open spec fn withdraw_payload(s: StateView, own_address: Seq<char>, amount: u128) -> Seq<u8> {
    cw20_send_json(s.anchor_address, amount, cw20_balance_json(own_address))
}

/// The instruction of a transfer to the owner's wallet.
pub open spec fn wallet_instructions(s: StateView, to: Seq<char>, amount: u128) -> Seq<
    InstructionView,
> {
    seq![
        InstructionView::Send {
            to_address: to,
            amount: seq![CoinView { denom: s.denom, amount: amount }],
        },
    ]
}

/// What a withdrawal of `amount` answers: on a store that holds a record,
/// always the one instruction to the token contract.
pub open spec fn withdraw_post(
    store: Option<StateView>,
    own_address: Seq<char>,
    amount: u128,
    r: Result<Response, ContractError>,
) -> bool {
    match store {
        None => r == Err::<Response, ContractError>(ContractError::NotInitialized),
        Some(s) => r matches Ok(resp) && resp@ == withdraw_instructions(
            s,
            withdraw_payload(s, own_address, amount),
        ),
    }
}

/// What a transfer of `amount` to the wallet of `sender` answers.
pub open spec fn send_to_wallet_post(
    store: Option<StateView>,
    sender: Seq<char>,
    amount: u128,
    r: Result<Response, ContractError>,
) -> bool {
    match authorized(store, sender) {
        Ok(s) => r matches Ok(resp) && resp@ == wallet_instructions(s, sender, amount),
        Err(e) => r == Err::<Response, ContractError>(e),
    }
}

/// The stored configuration, as a query sees it.
pub open spec fn state_info(store: Option<StateView>) -> Result<StateView, ContractError> {
    match store {
        None => Err(ContractError::NotInitialized),
        Some(s) => Ok(s),
    }
}

/// The query for the epoch state of the first destination.
pub open spec fn epoch_state_request(s: StateView) -> SmartQueryView {
    SmartQueryView {
        contract_addr: s.anchor_address,
        msg: (crate::anchor::QueryMsg::EpochState {
            block_height: None,
            distributed_interest: None,
        }).json(),
    }
}

/// The query to the token contract whose payload is `payload`.
pub open spec fn balance_request(s: StateView, payload: Seq<u8>) -> SmartQueryView {
    SmartQueryView { contract_addr: s.token_address, msg: payload }
}

/// The caller must be the owner of the configuration.
pub fn require_owner(caller: &String, state: &State) -> (r: Result<(), ContractError>)
    ensures
        caller@ == state@.owner ==> r == Ok::<(), ContractError>(()),
        caller@ != state@.owner ==> r == Err::<(), ContractError>(ContractError::Unauthorized),
{
    if *caller == state.owner {
        Ok(())
    } else {
        Err(ContractError::Unauthorized)
    }
}

/// The stored configuration, for a caller who must be its owner.
fn load_authorized(store: &ConfigStore, sender: &String) -> (r: Result<State, ContractError>)
    ensures
        match authorized(store@, sender@) {
            Ok(s) => r matches Ok(state) && Some(state) == store.record && state@ == s,
            Err(e) => r == Err::<State, ContractError>(e),
        },
{
    let state = match store.load() {
        Ok(s) => s,
        Err(e) => { return Err(e); },
    };
    match require_owner(sender, &state) {
        Ok(()) => Ok(state),
        Err(e) => Err(e),
    }
}

/// Splits a deposit by the configured portions. Each part is rounded toward
/// zero, so the two may fall short of the deposit; what is left over is
/// routed nowhere.
pub fn compute_split(deposit: u128, state: &State) -> (r: Result<(u128, u128), ContractError>)
    requires
        state.wf(),
    ensures
        deposit == 0 ==> r == Err::<(u128, u128), ContractError>(ContractError::InsufficientFunds),
        deposit > 0 ==> (r matches Ok(parts) && parts.0 == portion_of(
            deposit,
            state.anchor_portion,
        ) && parts.1 == portion_of(deposit, state.luna_portion) && parts.0 + parts.1 <= deposit),
{
    if deposit == 0 {
        return Err(ContractError::InsufficientFunds);
    }
    proof {
        lemma_split_within_amount(deposit, state.anchor_portion, state.luna_portion);
    }
    let amount_a = apply_portion(deposit, state.anchor_portion);
    let amount_b = apply_portion(deposit, state.luna_portion);
    Ok((amount_a, amount_b))
}

/// The answer to a deposit: the two instructions, in order.
pub fn deposit_response(state: &State, amount_a: u128, amount_b: u128) -> (r: Response)
    ensures
        r@ == deposit_instructions(state@, amount_a, amount_b),
{
    let mut funds: Vec<Coin> = Vec::new();
    funds.push(Coin { denom: state.denom.clone(), amount: amount_a });
    assert(coins_view(funds@) =~= seq![CoinView { denom: state@.denom, amount: amount_a }]);
    let deposit = Instruction::Execute {
        contract_addr: state.anchor_address.clone(),
        funds,
        msg: crate::anchor::ExecuteMsg::DepositStable {  }.to_json(),
    };
    let swap = Instruction::Swap {
        offer_coin: Coin { denom: state.denom.clone(), amount: amount_b },
        ask_denom: "uluna".to_owned(),
    };
    let r = Response::new().add_message(deposit).add_message(swap);
    assert(r@ =~= deposit_instructions(state@, amount_a, amount_b));
    r
}

/// The answer to a withdrawal whose payload is `payload`.
pub fn withdraw_response(state: &State, payload: Vec<u8>) -> (r: Response)
    ensures
        r@ == withdraw_instructions(state@, payload@),
{
    let funds: Vec<Coin> = Vec::new();
    assert(coins_view(funds@) =~= Seq::<CoinView>::empty());
    let send = Instruction::Execute {
        contract_addr: state.token_address.clone(),
        funds,
        msg: payload,
    };
    let r = Response::new().add_message(send);
    assert(r@ =~= withdraw_instructions(state@, payload@));
    r
}

/// The answer to a transfer of `amount` to the wallet `to`.
pub fn wallet_response(state: &State, to: &String, amount: u128) -> (r: Response)
    ensures
        r@ == wallet_instructions(state@, to@, amount),
{
    let mut coins: Vec<Coin> = Vec::new();
    coins.push(Coin { denom: state.denom.clone(), amount });
    assert(coins_view(coins@) =~= seq![CoinView { denom: state@.denom, amount: amount }]);
    let send = Instruction::Send { to_address: to.clone(), amount: coins };
    let r = Response::new().add_message(send);
    assert(r@ =~= wallet_instructions(state@, to@, amount));
    r
}

/// Sets the ledger up: the caller becomes the owner, nothing has been
/// deposited yet. Portions that do not add up to 1.0 are refused.
pub fn instantiate(store: &mut ConfigStore, info: &MessageInfo, msg: InstantiateMsg) -> (r: Result<
    Response,
    ContractError,
>)
    requires
        old(store).wf(),
    ensures
        final(store).wf(),
        committed(
            *old(store),
            *final(store),
            instantiate_outcome(info.sender@, msg),
            Seq::empty(),
            r,
        ),
{
    if !is_unit_split(msg.anchor_portion, msg.luna_portion) {
        return Err(ContractError::PortionError);
    }
    let state = State {
        owner: info.sender.clone(),
        denom: msg.denom,
        anchor_portion: msg.anchor_portion,
        luna_portion: msg.luna_portion,
        anchor_address: msg.anchor_address,
        token_address: msg.token_address,
        total_deposit: 0,
    };
    store.save(state);
    Ok(Response::new())
}

/// Splits the attached funds of the tracked denomination between the two
/// destinations and adds the first part to the total. A deposit without
/// such funds is refused.
pub fn execute_deposit(store: &mut ConfigStore, _env: &Env, info: &MessageInfo) -> (r: Result<
    Response,
    ContractError,
>)
    requires
        old(store).wf(),
        deposit_outcome(old(store)@, info.funds_view()) matches Ok(s) ==> s.total_deposit
            <= u128::MAX,
    ensures
        final(store).wf(),
        committed(
            *old(store),
            *final(store),
            deposit_outcome(old(store)@, info.funds_view()),
            deposit_emits(old(store)@, info.funds_view()),
            r,
        ),
{
    let mut state = match store.load() {
        Ok(s) => s,
        Err(e) => { return Err(e); },
    };
    let deposit = find_deposit(&info.funds, &state.denom);
    let (amount_a, amount_b) = match compute_split(deposit, &state) {
        Ok(parts) => parts,
        Err(e) => { return Err(e); },
    };
    state.total_deposit = state.total_deposit + amount_a;
    let r = deposit_response(&state, amount_a, amount_b);
    store.save(state);
    Ok(r)
}

/// Asks the token contract to send `amount` of the first destination's token
/// back to it for redemption, tagged with the ledger's own identity. Anyone
/// may ask; the backend decides whether the balance suffices.
pub fn execute_withdraw(store: &ConfigStore, env: &Env, _info: &MessageInfo, amount: u128) -> (r:
    Result<Response, ContractError>)
    ensures
        withdraw_post(store@, env.contract_address@, amount, r),
{
    let state = match store.load() {
        Ok(s) => s,
        Err(e) => { return Err(e); },
    };
    let tag = match encode_cw20_balance(&env.contract_address) {
        Ok(bytes) => bytes,
        Err(e) => { return Err(ContractError::Std(e)); },
    };
    let payload = match encode_cw20_send(&state.anchor_address, amount, &tag) {
        Ok(bytes) => bytes,
        Err(e) => { return Err(ContractError::Std(e)); },
    };
    Ok(withdraw_response(&state, payload))
}

/// Transfers `amount` of the tracked denomination to the caller, who must be
/// the owner.
pub fn execute_send_to_wallet(store: &ConfigStore, _env: &Env, info: &MessageInfo, amount: u128) -> (r:
    Result<Response, ContractError>)
    ensures
        send_to_wallet_post(store@, info.sender@, amount, r),
{
    let state = match load_authorized(store, &info.sender) {
        Ok(s) => s,
        Err(e) => { return Err(e); },
    };
    Ok(wallet_response(&state, &info.sender, amount))
}

/// Hands the ledger over to `address`. Only the owner may do so, and only
/// to an address that the backend accepts: `address_valid` is its verdict.
pub fn execute_set_owner(
    store: &mut ConfigStore,
    _env: &Env,
    info: &MessageInfo,
    address: String,
    address_valid: bool,
) -> (r: Result<Response, ContractError>)
    requires
        old(store).wf(),
    ensures
        final(store).wf(),
        committed(
            *old(store),
            *final(store),
            set_owner_outcome(old(store)@, info.sender@, address@, address_valid),
            Seq::empty(),
            r,
        ),
{
    let mut state = match load_authorized(store, &info.sender) {
        Ok(s) => s,
        Err(e) => { return Err(e); },
    };
    if !address_valid {
        return Err(ContractError::InvalidAddress);
    }
    state.owner = address;
    store.save(state);
    Ok(Response::new())
}

/// Replaces the two portions. Only the owner may do so, and only by
/// portions that add up to exactly 1.0.
pub fn execute_change_portion(
    store: &mut ConfigStore,
    _env: &Env,
    info: &MessageInfo,
    anchor_portion: Decimal,
    luna_portion: Decimal,
) -> (r: Result<Response, ContractError>)
    requires
        old(store).wf(),
    ensures
        final(store).wf(),
        committed(
            *old(store),
            *final(store),
            change_portion_outcome(old(store)@, info.sender@, anchor_portion, luna_portion),
            Seq::empty(),
            r,
        ),
{
    let mut state = match load_authorized(store, &info.sender) {
        Ok(s) => s,
        Err(e) => { return Err(e); },
    };
    if !is_unit_split(anchor_portion, luna_portion) {
        return Err(ContractError::PortionError);
    }
    state.anchor_portion = anchor_portion;
    state.luna_portion = luna_portion;
    store.save(state);
    Ok(Response::new())
}

/// The configuration that a request leaves behind when it succeeds, or the
/// error with which it is refused. A withdrawal and a transfer to the wallet
/// leave the configuration as it is.
pub open spec fn execute_outcome(
    store: Option<StateView>,
    info: MessageInfo,
    msg: ExecuteMsg,
    address_valid: bool,
) -> Result<StateView, ContractError> {
    match msg {
        ExecuteMsg::Deposit {  } => deposit_outcome(store, info.funds_view()),
        ExecuteMsg::Withdraw { amount } => state_info(store),
        ExecuteMsg::SendToWallet { amount } => authorized(store, info.sender@),
        ExecuteMsg::SetOwner { address } => set_owner_outcome(
            store,
            info.sender@,
            address@,
            address_valid,
        ),
        ExecuteMsg::ChangePortion { anchor_portion, luna_portion } => change_portion_outcome(
            store,
            info.sender@,
            anchor_portion,
            luna_portion,
        ),
    }
}

/// What a request leaves behind and answers, by its kind.
pub open spec fn execute_post(
    pre: ConfigStore,
    post: ConfigStore,
    env: Env,
    info: MessageInfo,
    msg: ExecuteMsg,
    address_valid: bool,
    r: Result<Response, ContractError>,
) -> bool {
    match msg {
        ExecuteMsg::Deposit {  } => committed(
            pre,
            post,
            deposit_outcome(pre@, info.funds_view()),
            deposit_emits(pre@, info.funds_view()),
            r,
        ),
        ExecuteMsg::Withdraw { amount } => post == pre && withdraw_post(
            pre@,
            env.contract_address@,
            amount,
            r,
        ),
        ExecuteMsg::SendToWallet { amount } => post == pre && send_to_wallet_post(
            pre@,
            info.sender@,
            amount,
            r,
        ),
        ExecuteMsg::SetOwner { address } => committed(
            pre,
            post,
            set_owner_outcome(pre@, info.sender@, address@, address_valid),
            Seq::empty(),
            r,
        ),
        ExecuteMsg::ChangePortion { anchor_portion, luna_portion } => committed(
            pre,
            post,
            change_portion_outcome(pre@, info.sender@, anchor_portion, luna_portion),
            Seq::empty(),
            r,
        ),
    }
}

/// Carries out one request. `address_valid` is the backend's verdict on the
/// address of a `SetOwner` request; the other requests do not look at it.
pub fn execute(
    store: &mut ConfigStore,
    env: &Env,
    info: &MessageInfo,
    msg: ExecuteMsg,
    address_valid: bool,
) -> (r: Result<Response, ContractError>)
    requires
        old(store).wf(),
        msg is Deposit ==> (deposit_outcome(old(store)@, info.funds_view()) matches Ok(s)
            ==> s.total_deposit <= u128::MAX),
    ensures
        final(store).wf(),
        execute_post(*old(store), *final(store), *env, *info, msg, address_valid, r),
{
    match msg {
        ExecuteMsg::Deposit {  } => execute_deposit(store, env, info),
        ExecuteMsg::Withdraw { amount } => execute_withdraw(&*store, env, info, amount),
        ExecuteMsg::SendToWallet { amount } => execute_send_to_wallet(&*store, env, info, amount),
        ExecuteMsg::SetOwner { address } => execute_set_owner(
            store,
            env,
            info,
            address,
            address_valid,
        ),
        ExecuteMsg::ChangePortion { anchor_portion, luna_portion } => execute_change_portion(
            store,
            env,
            info,
            anchor_portion,
            luna_portion,
        ),
    }
}

/// What a query hands back: the configuration itself, or a query to forward
/// to another contract.
#[derive(Debug, PartialEq)]
pub enum QueryResponse {
    StateInfo(State),
    Forward(SmartQuery),
}

/// The stored configuration.
pub fn query_state_info(store: &ConfigStore) -> (r: Result<State, ContractError>)
    ensures
        match state_info(store@) {
            Ok(s) => r matches Ok(state) && state@ == s && Some(state) == store.record,
            Err(e) => r == Err::<State, ContractError>(e),
        },
{
    store.load()
}

/// The query that asks the first destination for its epoch state.
pub fn query_epoch_state(store: &ConfigStore) -> (r: Result<SmartQuery, ContractError>)
    ensures
        match state_info(store@) {
            Ok(s) => r matches Ok(q) && q@ == epoch_state_request(s),
            Err(e) => r == Err::<SmartQuery, ContractError>(e),
        },
{
    let state = match store.load() {
        Ok(s) => s,
        Err(e) => { return Err(e); },
    };
    let ask = crate::anchor::QueryMsg::EpochState { block_height: None, distributed_interest: None };
    match ask.to_json() {
        Ok(msg) => Ok(SmartQuery { contract_addr: state.anchor_address, msg }),
        Err(e) => Err(e),
    }
}

/// The query to the token contract whose payload is `payload`.
pub fn balance_query(state: &State, payload: Vec<u8>) -> (r: SmartQuery)
    ensures
        r@ == balance_request(state@, payload@),
{
    SmartQuery { contract_addr: state.token_address.clone(), msg: payload }
}

/// What the balance query answers: on a store that holds a record, always
/// the query to the token contract about the ledger's own address.
pub open spec fn aust_balance_post(
    store: Option<StateView>,
    own_address: Seq<char>,
    r: Result<SmartQuery, ContractError>,
) -> bool {
    match store {
        None => r == Err::<SmartQuery, ContractError>(ContractError::NotInitialized),
        Some(s) => r matches Ok(q) && q@ == balance_request(s, cw20_balance_json(own_address)),
    }
}

/// The query that asks the token contract for the ledger's own balance.
pub fn query_aust_balance(store: &ConfigStore, env: &Env) -> (r: Result<SmartQuery, ContractError>)
    ensures
        aust_balance_post(store@, env.contract_address@, r),
{
    let state = match store.load() {
        Ok(s) => s,
        Err(e) => { return Err(e); },
    };
    let payload = match encode_cw20_balance(&env.contract_address) {
        Ok(bytes) => bytes,
        Err(e) => { return Err(ContractError::Std(e)); },
    };
    Ok(balance_query(&state, payload))
}

/// Answers one query.
pub fn query(store: &ConfigStore, env: &Env, msg: QueryMsg) -> (r: Result<
    QueryResponse,
    ContractError,
>)
    ensures
        match msg {
            QueryMsg::GetStateInfo {  } => match state_info(store@) {
                Ok(s) => r matches Ok(QueryResponse::StateInfo(state)) && state@ == s && Some(state)
                    == store.record,
                Err(e) => r == Err::<QueryResponse, ContractError>(e),
            },
            QueryMsg::GetEpochState {  } => match state_info(store@) {
                Ok(s) => r matches Ok(QueryResponse::Forward(q)) && q@ == epoch_state_request(s),
                Err(e) => r == Err::<QueryResponse, ContractError>(e),
            },
            QueryMsg::GetAustBalance {  } => match state_info(store@) {
                Ok(s) => r matches Ok(QueryResponse::Forward(q)) && q@ == balance_request(
                    s,
                    cw20_balance_json(env.contract_address@),
                ),
                Err(e) => r == Err::<QueryResponse, ContractError>(e),
            },
        },
{
    match msg {
        QueryMsg::GetStateInfo {  } => match query_state_info(store) {
            Ok(state) => Ok(QueryResponse::StateInfo(state)),
            Err(e) => Err(e),
        },
        QueryMsg::GetEpochState {  } => match query_epoch_state(store) {
            Ok(q) => Ok(QueryResponse::Forward(q)),
            Err(e) => Err(e),
        },
        QueryMsg::GetAustBalance {  } => match query_aust_balance(store, env) {
            Ok(q) => Ok(QueryResponse::Forward(q)),
            Err(e) => Err(e),
        },
    }
}

} // verus!
