//! The payloads that travel to other contracts, as bytes.

use vstd::prelude::*;

verus! {

/// The error of `cosmwasm_std`. The library never looks inside it: an error
/// that an encoder hands back travels on, whole, in `ContractError::Std`.
#[verifier::external_type_specification]
#[verifier::external_body]
pub struct ExStdError(cosmwasm_std::StdError);

/// The JSON text of the token query `Balance` for `address`, as the token
/// standard's own message type serialises.
pub uninterp spec fn cw20_balance_json(address: Seq<char>) -> Seq<u8>;

/// The JSON text of the token message `Send` with the receiving `contract`,
/// the `amount` and the inner payload `msg`, as the token standard's own
/// message type serialises.
pub uninterp spec fn cw20_send_json(contract: Seq<char>, amount: u128, msg: Seq<u8>) -> Seq<u8>;

/// The decimal digits of `n`, as ASCII.
pub open spec fn decimal_digits(n: nat) -> Seq<u8>
    decreases n,
{
    if n < 10 {
        seq![(48 + n) as u8]
    } else {
        decimal_digits(n / 10).push((48 + n % 10) as u8)
    }
}

/// The number that `bytes` spell in base 256, most significant first.
pub open spec fn be_value(bytes: Seq<u8>) -> nat
    decreases bytes.len(),
{
    if bytes.len() == 0 {
        0
    } else {
        be_value(bytes.drop_last()) * 256 + bytes.last() as nat
    }
}

/// The JSON text of the unsigned integer with the given bytes, most
/// significant first: its decimal digits between double quotes.
pub open spec fn uint256_json(be_bytes: Seq<u8>) -> Seq<u8> {
    seq![34u8] + decimal_digits(be_value(be_bytes)) + seq![34u8]
}

/// `cosmwasm_std::to_binary` on the `cosmwasm_std::Uint256` that
/// `Uint256::from_be_bytes` makes of the 32 bytes. The integer serialises as
/// a string of its decimal digits, and the encoder has no failing path for a
/// string, so the call succeeds with those digits between double quotes.
#[verifier::external_body]
pub(crate) fn encode_uint256(be_bytes: &[u8; 32]) -> (r: Result<Vec<u8>, cosmwasm_std::StdError>)
    ensures
        r is Ok,
        r matches Ok(bytes) ==> bytes@ == uint256_json(be_bytes@),
{
    cosmwasm_std::to_binary(&cosmwasm_std::Uint256::from_be_bytes(*be_bytes)).map(|b| b.0)
}

/// `cosmwasm_std::to_binary` on `cw20::Cw20QueryMsg::Balance`. The encoder
/// has no failing path for a variant with a string field, so the call
/// succeeds; the bytes are the message's JSON text, which depends on the
/// address alone.
#[verifier::external_body]
pub(crate) fn encode_cw20_balance(address: &String) -> (r: Result<Vec<u8>, cosmwasm_std::StdError>)
    ensures
        r is Ok,
        r matches Ok(bytes) ==> bytes@ == cw20_balance_json(address@),
{
    cosmwasm_std::to_binary(&cw20::Cw20QueryMsg::Balance { address: address.clone() }).map(|b| b.0)
}

/// `cosmwasm_std::to_binary` on `cw20::Cw20ExecuteMsg::Send`. All three
/// fields serialise as strings and the encoder has no failing path for
/// them, so the call succeeds; the bytes are the message's JSON text, which
/// depends on the three fields alone.
#[verifier::external_body]
pub(crate) fn encode_cw20_send(contract: &String, amount: u128, msg: &Vec<u8>) -> (r: Result<
    Vec<u8>,
    cosmwasm_std::StdError,
>)
    ensures
        r is Ok,
        r matches Ok(bytes) ==> bytes@ == cw20_send_json(contract@, amount, msg@),
{
    cosmwasm_std::to_binary(
        &cw20::Cw20ExecuteMsg::Send {
            contract: contract.clone(),
            amount: cosmwasm_std::Uint128::new(amount),
            msg: cosmwasm_std::Binary(msg.clone()),
        },
    ).map(|b| b.0)
}

} // verus!
