//! A deterministic balance ledger behind three entry points. It accepts a
//! single inbound payment in one configured denomination, splits it
//! between two recipients keeping the integer-division remainder as an
//! owner fee, and lets any account withdraw its accrued balance as an
//! outbound payment instruction. The host runtime that delivers calls,
//! validates addresses and executes payment instructions stays outside;
//! it hands these functions plain values and applies each call's effects
//! as one transaction.

pub mod contract;
pub mod errors;
pub mod ledger;
pub mod payment;
pub mod responses;
pub mod laws;

use vstd::prelude::*;

use crate::contract::{
    get_balance_post, get_owner_post, instantiate_post, transfer_post, withdraw_post,
    InstantiateMsgData, SeiContract,
};
use crate::errors::ContractError;
use crate::payment::Coin;
use crate::responses::{GetBalanceResp, OwnerResp, TransferReceipt, WithdrawReceipt};

verus! {

/// The initialization message: the data choosing the denomination.
#[derive(Clone, Debug, PartialEq, Eq)]
pub struct InstantiateMsg {
    pub data: InstantiateMsgData,
}

/// The closed set of mutating calls a host can deliver.
#[derive(Clone, Debug, PartialEq, Eq)]
pub enum ExecMsg {
    Transfer { recipient_one: String, recipient_two: String },
    Withdraw { amount: u128 },
}

/// The closed set of read-only calls a host can deliver.
#[derive(Clone, Debug, PartialEq, Eq)]
pub enum QueryMsg {
    GetOwner {},
    GetBalance { addr_str: String },
}

/// What the host knows about the call it delivers: the calling account,
/// the funds it attached, and the contract's own address.
#[derive(Clone, Debug, PartialEq, Eq)]
pub struct CallInfo {
    pub sender: String,
    pub funds: Vec<Coin>,
    pub contract_address: String,
}

/// The receipt of whichever mutating call ran.
#[derive(Clone, Debug, PartialEq, Eq)]
pub enum ExecResp {
    Transfer(TransferReceipt),
    Withdraw(WithdrawReceipt),
}

/// The answer of whichever read-only call ran.
#[derive(Clone, Debug, PartialEq, Eq)]
pub enum QueryResp {
    Owner(OwnerResp),
    Balance(GetBalanceResp),
}

/// Initialize the contract for the calling account.
pub fn instantiate(contract: &mut SeiContract, msg: InstantiateMsg, sender: String) -> (r: Result<
    (),
    ContractError,
>)
    ensures
        instantiate_post(*old(contract), *final(contract), msg.data.coin_denom@, sender@, r),
{
    contract.instantiate(msg.data, sender)
}

/// Route one mutating call to its handler and wrap its receipt.
pub fn execute(contract: &mut SeiContract, info: CallInfo, msg: ExecMsg) -> (r: Result<
    ExecResp,
    ContractError,
>)
    requires
        msg is Transfer ==> old(contract).is_active(),
    ensures
        match msg {
            ExecMsg::Transfer { recipient_one, recipient_two } => match r {
                Ok(resp) => {
                    &&& resp matches ExecResp::Transfer(rcpt) && transfer_post(
                        *old(contract),
                        *final(contract),
                        recipient_one@,
                        recipient_two@,
                        info.funds@,
                        info.contract_address@,
                        Ok(rcpt),
                    )
                },
                Err(e) => transfer_post(
                    *old(contract),
                    *final(contract),
                    recipient_one@,
                    recipient_two@,
                    info.funds@,
                    info.contract_address@,
                    Err(e),
                ),
            },
            ExecMsg::Withdraw { amount } => match r {
                Ok(resp) => {
                    &&& resp matches ExecResp::Withdraw(rcpt) && withdraw_post(
                        *old(contract),
                        *final(contract),
                        amount,
                        info.sender@,
                        Ok(rcpt),
                    )
                },
                Err(e) => withdraw_post(
                    *old(contract),
                    *final(contract),
                    amount,
                    info.sender@,
                    Err(e),
                ),
            },
        },
{
    let CallInfo { sender, funds, contract_address } = info;
    match msg {
        ExecMsg::Transfer { recipient_one, recipient_two } => {
            match contract.transfer(recipient_one, recipient_two, &funds, contract_address) {
                Ok(rcpt) => Ok(ExecResp::Transfer(rcpt)),
                Err(e) => Err(e),
            }
        },
        ExecMsg::Withdraw { amount } => {
            match contract.withdraw(amount, sender) {
                Ok(rcpt) => Ok(ExecResp::Withdraw(rcpt)),
                Err(e) => Err(e),
            }
        },
    }
}

/// Route one read-only call to its handler and wrap its answer.
pub fn query(contract: &SeiContract, msg: QueryMsg) -> (r: Result<QueryResp, ContractError>)
    ensures
        match msg {
            QueryMsg::GetOwner {} => {
                &&& r matches Ok(resp)
                &&& r matches Ok(resp) ==> resp matches QueryResp::Owner(owner_resp)
                    && get_owner_post(*contract, Ok(owner_resp))
            },
            QueryMsg::GetBalance { addr_str } => {
                &&& r matches Ok(resp)
                &&& r matches Ok(resp) ==> resp matches QueryResp::Balance(bal_resp)
                    && get_balance_post(*contract, addr_str@, Ok(bal_resp))
            },
        },
{
    match msg {
        QueryMsg::GetOwner {} => {
            match contract.get_owner() {
                Ok(resp) => Ok(QueryResp::Owner(resp)),
                Err(e) => Err(e),
            }
        },
        QueryMsg::GetBalance { addr_str } => {
            match contract.get_balance(addr_str) {
                Ok(resp) => Ok(QueryResp::Balance(resp)),
                Err(e) => Err(e),
            }
        },
    }
}

} // verus!
