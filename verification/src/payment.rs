//! The payment validator: accepts the funds attached to a call only when
//! they are exactly one nonzero entry in the configured denomination.

use vstd::prelude::*;
use crate::errors::PaymentError;

verus! {

/// One attached fund entry: a denomination symbol and an amount.
#[derive(Clone, Debug, PartialEq, Eq)]
pub struct Coin {
    pub denom: String,
    pub amount: u128,
}

/// What the payment validator decides for given funds and denomination:
/// the amount of the single attached entry, or the reason of refusal.
/// A single entry of amount zero counts as no payment at all.
pub open spec fn must_pay_spec(funds: Seq<Coin>, denom: Seq<char>) -> Result<u128, PaymentError> {
    if funds.len() == 0 {
        Err(PaymentError::NoPayment)
    } else if funds.len() > 1 {
        Err(PaymentError::MultiplePayments)
    } else if funds[0].amount == 0 {
        Err(PaymentError::NoPayment)
    } else if funds[0].denom@ != denom {
        Err(PaymentError::WrongDenomination)
    } else {
        Ok(funds[0].amount)
    }
}

/// Inspect the funds attached to a call and return the amount of the one
/// accepted payment, or the reason there is none.
pub fn must_pay(funds: &Vec<Coin>, denom: &String) -> (r: Result<u128, PaymentError>)
    ensures
        r == must_pay_spec(funds@, denom@),
{
    if funds.len() == 0 {
        Err(PaymentError::NoPayment)
    } else if funds.len() > 1 {
        Err(PaymentError::MultiplePayments)
    } else {
        let coin = &funds[0];
        if coin.amount == 0 {
            Err(PaymentError::NoPayment)
        } else if !coin.denom.eq(denom) {
            Err(PaymentError::WrongDenomination)
        } else {
            Ok(coin.amount)
        }
    }
}

} // verus!
