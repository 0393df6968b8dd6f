//! The ledger contract: one owner, one accepted denomination, and a
//! balance ledger. A transfer splits an accepted inbound payment between
//! two recipients and credits the integer-division remainder to the owner
//! as a fee; a withdrawal debits the caller's balance and instructs the
//! host to pay the amount out. Every failure leaves the state untouched.

use vstd::prelude::*;
use vstd::pervasive::unreached;
use vstd::string::StringExecFns;
use crate::errors::{ContractError, PaymentError};
use crate::ledger::{
    credit_ok, credited, entries_of, ledger_of, vec_balance_of, vec_credit, vec_debit,
};
use crate::payment::{must_pay, must_pay_spec, Coin};
use crate::responses::{BankPayment, GetBalanceResp, OwnerResp, TransferReceipt, WithdrawReceipt};

verus! {

/// The data handed to initialization: the one accepted denomination.
#[derive(Clone, Debug, PartialEq, Eq)]
pub struct InstantiateMsgData {
    pub coin_denom: String,
}

/// Half of a transferred amount, rounded down: each recipient's share.
pub open spec fn half_of(a: u128) -> u128 {
    a / 2
}

/// The remainder of splitting a transferred amount: the owner's fee.
pub open spec fn fee_of(a: u128) -> u128 {
    a % 2
}

/// The ledger after a transfer of `a`: the fee to the owner, then half to
/// each recipient in turn. An address in several roles is credited once
/// per role.
pub open spec fn transfer_ledger(
    m: Map<Seq<char>, u128>,
    o: Seq<char>,
    r1: Seq<char>,
    r2: Seq<char>,
    a: u128,
) -> Map<Seq<char>, u128> {
    credited(credited(credited(m, o, fee_of(a)), r1, half_of(a)), r2, half_of(a))
}

/// No step of the transfer credit chain overflows a balance.
pub open spec fn transfer_fits(
    m: Map<Seq<char>, u128>,
    o: Seq<char>,
    r1: Seq<char>,
    r2: Seq<char>,
    a: u128,
) -> bool {
    let m1 = credited(m, o, fee_of(a));
    let m2 = credited(m1, r1, half_of(a));
    &&& credit_ok(m, o, fee_of(a))
    &&& credit_ok(m1, r1, half_of(a))
    &&& credit_ok(m2, r2, half_of(a))
}

/// The contract state: the owner set at initialization, the accepted
/// denomination, and the balance ledger.
pub struct SeiContract {
    pub owner: Option<String>,
    pub coin_denom: String,
    pub balances: Vec<(String, u128)>,
}

impl SeiContract {
    /// The balance ledger as a total map: zero for absent addresses.
    pub open spec fn ledger(self) -> Map<Seq<char>, u128> {
        ledger_of(entries_of(self.balances@))
    }

    /// The balance the ledger holds for one address.
    pub open spec fn balance_of(self, a: Seq<char>) -> u128 {
        self.ledger()[a]
    }

    /// The owner address, or the empty string while none is set.
    pub open spec fn owner_addr(self) -> Seq<char> {
        match self.owner {
            Some(o) => o@,
            None => Seq::empty(),
        }
    }

    /// Initialization has run: an owner is on record.
    pub open spec fn is_active(self) -> bool {
        self.owner is Some
    }
}

/// What `SeiContract::instantiate` promises: it cannot fail, records the
/// caller as owner and the chosen denomination, and touches no balance.
pub open spec fn instantiate_post(
    pre: SeiContract,
    post: SeiContract,
    denom: Seq<char>,
    sender: Seq<char>,
    r: Result<(), ContractError>,
) -> bool {
    &&& r is Ok
    &&& post.is_active()
    &&& post.owner_addr() == sender
    &&& post.coin_denom@ == denom
    &&& post.balances == pre.balances
}

/// What `SeiContract::transfer` promises. On success the payment was the
/// one accepted entry, no credit overflowed, the ledger is the old one
/// with the fee and the two halves credited, and the receipt carries the
/// action tag, the total, the per-recipient share and the custody
/// instruction over `amount - fee`. On failure nothing changed, and the
/// error is the payment validator's verdict or the overflow report.
pub open spec fn transfer_post(
    pre: SeiContract,
    post: SeiContract,
    r1: Seq<char>,
    r2: Seq<char>,
    funds: Seq<Coin>,
    contract_addr: Seq<char>,
    r: Result<TransferReceipt, ContractError>,
) -> bool {
    let o = pre.owner_addr();
    let pay = must_pay_spec(funds, pre.coin_denom@);
    match r {
        Ok(rcpt) => {
            &&& pay matches Ok(a)
            &&& pay matches Ok(a) ==> {
                &&& transfer_fits(pre.ledger(), o, r1, r2, a)
                &&& post.ledger() == transfer_ledger(pre.ledger(), o, r1, r2, a)
                &&& post.owner == pre.owner
                &&& post.coin_denom == pre.coin_denom
                &&& rcpt.action@ == "transfer"@
                &&& rcpt.amount == a
                &&& rcpt.per_recipient == half_of(a)
                &&& rcpt.payment.to_address@ == contract_addr
                &&& rcpt.payment.denom@ == pre.coin_denom@
                &&& rcpt.payment.amount == a - fee_of(a)
            }
        },
        Err(e) => {
            &&& post == pre
            &&& match e {
                ContractError::Payment(pe) => pay == Err::<u128, PaymentError>(pe),
                ContractError::Overflow => pay matches Ok(a) && !transfer_fits(
                    pre.ledger(),
                    o,
                    r1,
                    r2,
                    a,
                ),
                _ => false,
            }
        },
    }
}

/// What `SeiContract::withdraw` promises. On success the request was
/// nonzero and covered, exactly that amount left the sender's balance and
/// no other balance moved, and the receipt instructs the host to pay the
/// amount out to the sender in the configured denomination. On failure
/// nothing changed: a zero request is refused as such, an uncovered one
/// names the sender.
pub open spec fn withdraw_post(
    pre: SeiContract,
    post: SeiContract,
    amount: u128,
    sender: Seq<char>,
    r: Result<WithdrawReceipt, ContractError>,
) -> bool {
    match r {
        Ok(rcpt) => {
            &&& amount > 0
            &&& pre.balance_of(sender) >= amount
            &&& post.ledger() == pre.ledger().insert(
                sender,
                (pre.balance_of(sender) - amount) as u128,
            )
            &&& post.owner == pre.owner
            &&& post.coin_denom == pre.coin_denom
            &&& rcpt.action@ == "withdraw"@
            &&& rcpt.amount == amount
            &&& rcpt.recipient@ == sender
            &&& rcpt.payment.to_address@ == sender
            &&& rcpt.payment.denom@ == pre.coin_denom@
            &&& rcpt.payment.amount == amount
        },
        Err(e) => {
            &&& post == pre
            &&& match e {
                ContractError::InvalidZeroAmount => amount == 0,
                ContractError::InsufficientBalance { sender: s } => {
                    &&& amount > 0
                    &&& s@ == sender
                    &&& pre.balance_of(sender) < amount
                },
                _ => false,
            }
        },
    }
}

/// What `SeiContract::get_owner` promises: it always answers, with the
/// owner address, or with the empty string while no owner is set.
pub open spec fn get_owner_post(c: SeiContract, r: Result<OwnerResp, ContractError>) -> bool {
    &&& r matches Ok(resp)
    &&& r matches Ok(resp) ==> resp.owner@ == c.owner_addr()
}

/// What `SeiContract::get_balance` promises: it always answers, echoing
/// the queried address with its ledger balance, zero for an absent entry.
pub open spec fn get_balance_post(
    c: SeiContract,
    addr: Seq<char>,
    r: Result<GetBalanceResp, ContractError>,
) -> bool {
    &&& r matches Ok(resp)
    &&& r matches Ok(resp) ==> resp.addr@ == addr && resp.balance == c.balance_of(addr)
}

impl SeiContract {
    /// A fresh, uninitialized contract: no owner, no denomination, and a
    /// ledger that holds zero for every address.
    pub fn new() -> (c: SeiContract)
        ensures
            !c.is_active(),
            c.coin_denom@ == Seq::<char>::empty(),
            c.balances@.len() == 0,
            c.ledger() == crate::ledger::zero_ledger(),
    {
        let c = SeiContract { owner: None, coin_denom: String::new(), balances: Vec::new() };
        proof {
            assert(entries_of(c.balances@) =~= Seq::<(Seq<char>, u128)>::empty());
        }
        c
    }

    /// Record the caller performing initialization as the sole owner, and
    /// the chosen denomination as the one accepted currency.
    pub fn instantiate(&mut self, data: InstantiateMsgData, sender: String) -> (r: Result<
        (),
        ContractError,
    >)
        ensures
            instantiate_post(*old(self), *final(self), data.coin_denom@, sender@, r),
    {
        self.owner = Some(sender);
        self.coin_denom = data.coin_denom;
        Ok(())
    }

    /// Split an accepted inbound payment between two recipients, crediting
    /// the integer-division remainder to the owner as a fee, and return
    /// the receipt with the custody instruction. Any failure leaves every
    /// balance as it was.
    pub fn transfer(
        &mut self,
        recipient_one: String,
        recipient_two: String,
        funds: &Vec<Coin>,
        contract_address: String,
    ) -> (r: Result<TransferReceipt, ContractError>)
        requires
            old(self).is_active(),
        ensures
            transfer_post(
                *old(self),
                *final(self),
                recipient_one@,
                recipient_two@,
                funds@,
                contract_address@,
                r,
            ),
    {
        let ghost m0 = old(self).ledger();
        let ghost o = old(self).owner_addr();
        let amount = match must_pay(funds, &self.coin_denom) {
            Ok(a) => a,
            Err(pe) => {
                return Err(ContractError::Payment(pe));
            },
        };
        let half = amount / 2;
        let fee = amount % 2;
        let owner = match &self.owner {
            Some(name) => name.clone(),
            None => unreached(),
        };
        // Rule every overflow out before the first write: failure must
        // leave the ledger untouched.
        let base_owner = vec_balance_of(&self.balances, &owner);
        let next_owner = match base_owner.checked_add(fee) {
            Some(x) => x,
            None => {
                return Err(ContractError::Overflow);
            },
        };
        let ghost m1 = credited(m0, o, fee_of(amount));
        let base_one = if recipient_one.eq(&owner) {
            next_owner
        } else {
            vec_balance_of(&self.balances, &recipient_one)
        };
        assert(base_one == m1[recipient_one@]);
        let next_one = match base_one.checked_add(half) {
            Some(x) => x,
            None => {
                return Err(ContractError::Overflow);
            },
        };
        let ghost m2 = credited(m1, recipient_one@, half_of(amount));
        let base_two = if recipient_two.eq(&recipient_one) {
            next_one
        } else if recipient_two.eq(&owner) {
            next_owner
        } else {
            vec_balance_of(&self.balances, &recipient_two)
        };
        assert(base_two == m2[recipient_two@]);
        if base_two.checked_add(half).is_none() {
            return Err(ContractError::Overflow);
        }
        assert(transfer_fits(m0, o, recipient_one@, recipient_two@, amount));
        vec_credit(&mut self.balances, &owner, fee);
        vec_credit(&mut self.balances, &recipient_one, half);
        vec_credit(&mut self.balances, &recipient_two, half);
        let payout = amount - fee;
        Ok(
            TransferReceipt {
                action: String::from_str("transfer"),
                amount,
                per_recipient: half,
                payment: BankPayment {
                    to_address: contract_address,
                    denom: self.coin_denom.clone(),
                    amount: payout,
                },
            },
        )
    }

    /// Debit a nonzero, covered amount from the caller's balance and
    /// return the receipt instructing the host to pay it out. A zero or
    /// uncovered request fails and changes nothing.
    pub fn withdraw(&mut self, amount: u128, sender: String) -> (r: Result<
        WithdrawReceipt,
        ContractError,
    >)
        ensures
            withdraw_post(*old(self), *final(self), amount, sender@, r),
    {
        if amount == 0 {
            return Err(ContractError::InvalidZeroAmount);
        }
        let balance = vec_balance_of(&self.balances, &sender);
        if balance < amount {
            return Err(ContractError::InsufficientBalance { sender });
        }
        vec_debit(&mut self.balances, &sender, amount);
        Ok(
            WithdrawReceipt {
                action: String::from_str("withdraw"),
                amount,
                recipient: sender.clone(),
                payment: BankPayment {
                    to_address: sender,
                    denom: self.coin_denom.clone(),
                    amount,
                },
            },
        )
    }

    /// Answer the owner query: the owner address, or the empty string in
    /// the unreachable state where no owner was ever recorded.
    pub fn get_owner(&self) -> (r: Result<OwnerResp, ContractError>)
        ensures
            get_owner_post(*self, r),
    {
        let owner = match &self.owner {
            Some(name) => name.clone(),
            None => String::new(),
        };
        Ok(OwnerResp { owner })
    }

    /// Answer the balance query for one address: its ledger balance, zero
    /// when it has no entry. It never fails.
    pub fn get_balance(&self, addr_str: String) -> (r: Result<GetBalanceResp, ContractError>)
        ensures
            get_balance_post(*self, addr_str@, r),
    {
        let balance = vec_balance_of(&self.balances, &addr_str);
        Ok(GetBalanceResp { addr: addr_str, balance })
    }
}

} // verus!
