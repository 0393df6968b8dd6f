use vstd::prelude::*;

verus! {

/// Reasons the payment validator rejects the funds attached to a call.
#[derive(Clone, Debug, PartialEq, Eq)]
pub enum PaymentError {
    /// Nothing attached, or a single attached entry of amount zero.
    NoPayment,
    /// More than one fund entry attached.
    MultiplePayments,
    /// Exactly one nonzero entry attached, but in the wrong denomination.
    WrongDenomination,
}

/// Every way a call into the ledger can fail. Each failure leaves the
/// ledger exactly as it was: no partial mutation survives an error.
#[derive(Clone, Debug, PartialEq, Eq)]
pub enum ContractError {
    /// The funds attached to a transfer were rejected by the payment validator.
    Payment(PaymentError),
    /// A withdrawal asked for more than the sender's ledger balance.
    InsufficientBalance { sender: String },
    /// A withdrawal asked for zero tokens.
    InvalidZeroAmount,
    /// A checked addition on a ledger balance would exceed the amount type.
    Overflow,
}

} // verus!
