//! The messages of the savings protocol that receives the first part of each
//! deposit.

use vstd::prelude::*;
use crate::error::ContractError;
use crate::wire::{decimal_digits, encode_uint256, uint256_json};

verus! {

/// What the savings protocol can be asked to do.
#[derive(Clone, Copy, Debug, PartialEq, Eq, Structural)]
pub enum ExecuteMsg {
    /// Deposit the attached stable coins.
    DepositStable {  },
}

/// What the savings protocol accepts along with a transfer of its token.
#[derive(Clone, Copy, Debug, PartialEq, Eq, Structural)]
pub enum Cw20HookMsg {
    /// Return stable coins to the sender, at the current exchange rate.
    RedeemStable {  },
}

/// `{"deposit_stable":{}}`
pub open spec fn deposit_stable_json() -> Seq<u8> {
    seq![
        123u8, 34, 100, 101, 112, 111, 115, 105, 116, 95, 115, 116, 97, 98, 108, 101, 34, 58, 123,
        125, 125,
    ]
}

/// `{"redeem_stable":{}}`
pub open spec fn redeem_stable_json() -> Seq<u8> {
    seq![
        123u8, 34, 114, 101, 100, 101, 101, 109, 95, 115, 116, 97, 98, 108, 101, 34, 58, 123, 125,
        125,
    ]
}

impl ExecuteMsg {
    /// The message's JSON text.
    pub open spec fn json(self) -> Seq<u8> {
        match self {
            ExecuteMsg::DepositStable {  } => deposit_stable_json(),
        }
    }

    /// The message as JSON text.
    pub fn to_json(&self) -> (r: Vec<u8>)
        ensures
            r@ == self.json(),
    {
        match self {
            ExecuteMsg::DepositStable {  } => {
                let r: Vec<u8> = vec![
                    123u8, 34, 100, 101, 112, 111, 115, 105, 116, 95, 115, 116, 97, 98, 108, 101,
                    34, 58, 123, 125, 125,
                ];
                assert(r@ =~= deposit_stable_json());
                r
            },
        }
    }
}

impl Cw20HookMsg {
    /// The message's JSON text.
    pub open spec fn json(self) -> Seq<u8> {
        match self {
            Cw20HookMsg::RedeemStable {  } => redeem_stable_json(),
        }
    }

    /// The message as JSON text.
    pub fn to_json(&self) -> (r: Vec<u8>)
        ensures
            r@ == self.json(),
    {
        match self {
            Cw20HookMsg::RedeemStable {  } => {
                let r: Vec<u8> = vec![
                    123u8, 34, 114, 101, 100, 101, 101, 109, 95, 115, 116, 97, 98, 108, 101, 34,
                    58, 123, 125, 125,
                ];
                assert(r@ =~= redeem_stable_json());
                r
            },
        }
    }
}

/// An unsigned 256-bit integer, by its 32 bytes, most significant first.
#[derive(Clone, Copy, Debug, PartialEq, Eq)]
pub struct Uint256 {
    pub be_bytes: [u8; 32],
}

/// A fixed-point number with 18 fractional digits over 256 bits.
#[derive(Clone, Copy, Debug, PartialEq, Eq)]
pub struct Decimal256 {
    pub atomics: Uint256,
}

/// What the savings protocol answers about its current epoch.
#[derive(Clone, Copy, Debug, PartialEq, Eq)]
pub struct EpochStateResponse {
    pub exchange_rate: Decimal256,
    pub aterra_supply: Uint256,
}

/// What the savings protocol can be asked about.
#[derive(Clone, Copy, Debug, PartialEq, Eq)]
pub enum QueryMsg {
    /// The epoch state, as of now or as of the given block height and
    /// distributed interest.
    EpochState { block_height: Option<u64>, distributed_interest: Option<Uint256> },
}

/// `null`
pub open spec fn null_json() -> Seq<u8> {
    seq![110u8, 117, 108, 108]
}

/// `{"epoch_state":{"block_height":`
pub open spec fn epoch_state_head() -> Seq<u8> {
    seq![
        123u8, 34, 101, 112, 111, 99, 104, 95, 115, 116, 97, 116, 101, 34, 58, 123, 34, 98, 108,
        111, 99, 107, 95, 104, 101, 105, 103, 104, 116, 34, 58,
    ]
}

/// `,"distributed_interest":`
pub open spec fn epoch_state_middle() -> Seq<u8> {
    seq![
        44u8, 34, 100, 105, 115, 116, 114, 105, 98, 117, 116, 101, 100, 95, 105, 110, 116, 101,
        114, 101, 115, 116, 34, 58,
    ]
}

/// `}}`
pub open spec fn epoch_state_tail() -> Seq<u8> {
    seq![125u8, 125]
}

/// The decimal digits of `n`, as ASCII.
pub fn write_u64(n: u64) -> (r: Vec<u8>)
    ensures
        r@ == decimal_digits(n as nat),
    decreases n,
{
    if n < 10 {
        let digit: u8 = 48 + (n as u8);
        let r: Vec<u8> = vec![digit];
        assert(r@ =~= decimal_digits(n as nat));
        r
    } else {
        let mut r = write_u64(n / 10);
        let digit: u8 = 48 + ((n % 10) as u8);
        r.push(digit);
        r
    }
}

/// The JSON text of an epoch state query whose two fields are already
/// written: `height` and `interest` stand where the fields' values go.
pub open spec fn epoch_state_frame(height: Seq<u8>, interest: Seq<u8>) -> Seq<u8> {
    epoch_state_head() + height + epoch_state_middle() + interest + epoch_state_tail()
}

/// Puts the two written fields of an epoch state query into its JSON text.
pub fn frame_epoch_state(height: Vec<u8>, interest: Vec<u8>) -> (r: Vec<u8>)
    ensures
        r@ == epoch_state_frame(height@, interest@),
{
    let mut height = height;
    let mut interest = interest;
    let mut out: Vec<u8> = vec![
        123u8, 34, 101, 112, 111, 99, 104, 95, 115, 116, 97, 116, 101, 34, 58, 123, 34, 98, 108,
        111, 99, 107, 95, 104, 101, 105, 103, 104, 116, 34, 58,
    ];
    assert(out@ =~= epoch_state_head());
    out.append(&mut height);
    let mut middle: Vec<u8> = vec![
        44u8, 34, 100, 105, 115, 116, 114, 105, 98, 117, 116, 101, 100, 95, 105, 110, 116, 101,
        114, 101, 115, 116, 34, 58,
    ];
    assert(middle@ =~= epoch_state_middle());
    out.append(&mut middle);
    out.append(&mut interest);
    let mut tail: Vec<u8> = vec![125u8, 125];
    assert(tail@ =~= epoch_state_tail());
    out.append(&mut tail);
    out
}

impl QueryMsg {
    /// The message's JSON text: a field that is absent is `null`, a block
    /// height is a number, a distributed interest is a quoted number.
    pub open spec fn json(self) -> Seq<u8> {
        match self {
            QueryMsg::EpochState { block_height, distributed_interest } => epoch_state_frame(
                match block_height {
                    None => null_json(),
                    Some(n) => decimal_digits(n as nat),
                },
                match distributed_interest {
                    None => null_json(),
                    Some(x) => uint256_json(x.be_bytes@),
                },
            ),
        }
    }

    /// The message as JSON text. Encoding always succeeds.
    pub fn to_json(&self) -> (r: Result<Vec<u8>, ContractError>)
        ensures
            r matches Ok(bytes) && bytes@ == self.json(),
    {
        match self {
            QueryMsg::EpochState { block_height, distributed_interest } => {
                let height = match block_height {
                    None => write_null(),
                    Some(n) => write_u64(*n),
                };
                let interest = match distributed_interest {
                    None => write_null(),
                    Some(x) => match encode_uint256(&x.be_bytes) {
                        Ok(bytes) => bytes,
                        Err(e) => { return Err(ContractError::Std(e)); },
                    },
                };
                Ok(frame_epoch_state(height, interest))
            },
        }
    }
}

/// `null`, as bytes.
fn write_null() -> (r: Vec<u8>)
    ensures
        r@ == null_json(),
{
    let r: Vec<u8> = vec![110u8, 117, 108, 108];
    assert(r@ =~= null_json());
    r
}

} // verus!
