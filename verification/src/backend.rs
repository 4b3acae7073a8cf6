//! The plain values that the ledger exchanges with its execution backend:
//! what the backend tells about a call, and the instructions that the ledger
//! hands back for dispatch.

use vstd::prelude::*;

verus! {

/// An amount of one denomination.
#[derive(Debug, PartialEq)]
pub struct Coin {
    pub denom: String,
    pub amount: u128,
}

/// The mathematical value of a [`Coin`].
pub struct CoinView {
    pub denom: Seq<char>,
    pub amount: u128,
}

impl View for Coin {
    type V = CoinView;

    open spec fn view(&self) -> CoinView {
        CoinView { denom: self.denom@, amount: self.amount }
    }
}

/// The values of a list of coins, in order.
pub open spec fn coins_view(coins: Seq<Coin>) -> Seq<CoinView> {
    Seq::new(coins.len(), |i: int| coins[i]@)
}

/// What the backend tells about the ledger itself.
#[derive(Debug, PartialEq)]
pub struct Env {
    /// The ledger's own identity.
    pub contract_address: String,
}

/// What the backend tells about a call: who made it and what came with it.
#[derive(Debug, PartialEq)]
pub struct MessageInfo {
    pub sender: String,
    pub funds: Vec<Coin>,
}

impl MessageInfo {
    /// The coins that came with the call.
    pub open spec fn funds_view(&self) -> Seq<CoinView> {
        coins_view(self.funds@)
    }
}

/// An outbound instruction. The ledger emits it; the backend carries it out.
#[derive(Debug, PartialEq)]
pub enum Instruction {
    /// Call the contract at `contract_addr` with the payload `msg` and the
    /// attached `funds`.
    Execute { contract_addr: String, funds: Vec<Coin>, msg: Vec<u8> },
    /// Transfer `amount` to `to_address`.
    Send { to_address: String, amount: Vec<Coin> },
    /// Convert `offer_coin` into `ask_denom` on the backend's market.
    Swap { offer_coin: Coin, ask_denom: String },
}

/// The mathematical value of an [`Instruction`].
pub enum InstructionView {
    Execute { contract_addr: Seq<char>, funds: Seq<CoinView>, msg: Seq<u8> },
    Send { to_address: Seq<char>, amount: Seq<CoinView> },
    Swap { offer_coin: CoinView, ask_denom: Seq<char> },
}

impl View for Instruction {
    type V = InstructionView;

    open spec fn view(&self) -> InstructionView {
        match *self {
            Instruction::Execute { contract_addr, funds, msg } => InstructionView::Execute {
                contract_addr: contract_addr@,
                funds: coins_view(funds@),
                msg: msg@,
            },
            Instruction::Send { to_address, amount } => InstructionView::Send {
                to_address: to_address@,
                amount: coins_view(amount@),
            },
            Instruction::Swap { offer_coin, ask_denom } => InstructionView::Swap {
                offer_coin: offer_coin@,
                ask_denom: ask_denom@,
            },
        }
    }
}

/// The answer to a successful operation: the instructions to dispatch, in
/// order.
#[derive(Debug, PartialEq)]
pub struct Response {
    pub messages: Vec<Instruction>,
}

impl View for Response {
    type V = Seq<InstructionView>;

    open spec fn view(&self) -> Seq<InstructionView> {
        Seq::new(self.messages@.len(), |i: int| self.messages@[i]@)
    }
}

impl Response {
    /// An answer without instructions.
    pub fn new() -> (r: Response)
        ensures
            r@ == Seq::<InstructionView>::empty(),
    {
        let r = Response { messages: Vec::new() };
        assert(r@ =~= Seq::<InstructionView>::empty());
        r
    }

    /// Appends `msg` to the instructions.
    pub fn add_message(self, msg: Instruction) -> (r: Response)
        ensures
            r@ == self@.push(msg@),
    {
        let mut messages = self.messages;
        messages.push(msg);
        let r = Response { messages };
        assert(r@ =~= self@.push(msg@));
        r
    }
}

/// A query to forward to another contract: the payload `msg` for the
/// contract at `contract_addr`.
#[derive(Debug, PartialEq)]
pub struct SmartQuery {
    pub contract_addr: String,
    pub msg: Vec<u8>,
}

/// The mathematical value of a [`SmartQuery`].
pub struct SmartQueryView {
    pub contract_addr: Seq<char>,
    pub msg: Seq<u8>,
}

impl View for SmartQuery {
    type V = SmartQueryView;

    open spec fn view(&self) -> SmartQueryView {
        SmartQueryView { contract_addr: self.contract_addr@, msg: self.msg@ }
    }
}

/// The amount of the first coin of `denom` among `funds`; zero when there is
/// none.
pub open spec fn deposit_amount(funds: Seq<CoinView>, denom: Seq<char>) -> u128
    decreases funds.len(),
{
    if funds.len() == 0 {
        0
    } else if funds[0].denom == denom {
        funds[0].amount
    } else {
        deposit_amount(funds.drop_first(), denom)
    }
}

/// The amount of the first coin of `denom` among `funds`; zero when there is
/// none.
pub fn find_deposit(funds: &Vec<Coin>, denom: &String) -> (r: u128)
    ensures
        r == deposit_amount(coins_view(funds@), denom@),
{
    let ghost all = coins_view(funds@);
    let mut i: usize = 0;
    assert(all.skip(0) =~= all);
    while i < funds.len()
        invariant
            i <= funds.len(),
            all == coins_view(funds@),
            deposit_amount(all, denom@) == deposit_amount(all.skip(i as int), denom@),
        decreases funds.len() - i,
    {
        let ghost rest = all.skip(i as int);
        assert(rest[0] == funds@[i as int]@);
        assert(rest.drop_first() =~= all.skip(i + 1));
        if funds[i].denom == *denom {
            return funds[i].amount;
        }
        i = i + 1;
    }
    assert(all.skip(i as int).len() == 0);
    0
}

} // verus!
