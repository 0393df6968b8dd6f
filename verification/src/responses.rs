//! The structured results of the ledger's operations: query answers,
//! receipts of the mutating operations, and the outbound payment
//! instruction the host executes atomically with the ledger commit.

use vstd::prelude::*;

verus! {

/// The answer of the owner query: the owner address, or the empty string
/// in the unreachable state where no owner was ever set.
#[derive(Clone, Debug, PartialEq, Eq)]
pub struct OwnerResp {
    pub owner: String,
}

/// The answer of the balance query: the queried address and its balance.
#[derive(Clone, Debug, PartialEq, Eq)]
pub struct GetBalanceResp {
    pub addr: String,
    pub balance: u128,
}

/// An instruction to the host to move funds of the contract's custody:
/// `amount` tokens of `denom` to `to_address`.
#[derive(Clone, Debug, PartialEq, Eq)]
pub struct BankPayment {
    pub to_address: String,
    pub denom: String,
    pub amount: u128,
}

/// The result of a successful transfer: the action tag, the total amount
/// accepted, the share credited to each recipient, and the instruction
/// keeping the paid-out part in the contract's own custody.
#[derive(Clone, Debug, PartialEq, Eq)]
pub struct TransferReceipt {
    pub action: String,
    pub amount: u128,
    pub per_recipient: u128,
    pub payment: BankPayment,
}

/// The result of a successful withdrawal: the action tag, the amount, the
/// recipient, and the instruction paying that amount out to the caller.
#[derive(Clone, Debug, PartialEq, Eq)]
pub struct WithdrawReceipt {
    pub action: String,
    pub amount: u128,
    pub recipient: String,
    pub payment: BankPayment,
}

} // verus!
