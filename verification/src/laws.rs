//! The laws of the ledger: what holds of every transfer, every
//! withdrawal and every read, proved once and for all from the operation
//! contracts. Each law is stated over the same spec functions the
//! operations' own `ensures` use, so it applies to every call the
//! contracts describe.

use vstd::prelude::*;
use crate::contract::{
    fee_of, get_balance_post, half_of, transfer_fits, transfer_ledger, transfer_post,
    withdraw_post, SeiContract,
};
use crate::errors::ContractError;
use crate::ledger::lemma_ledger_of_absent;
use crate::responses::{GetBalanceResp, TransferReceipt, WithdrawReceipt};

verus! {

/// Conservation: a successful transfer of `a` between two distinct
/// recipients, neither the owner, grows the three parties' combined
/// balance by exactly `a`: the two halves and the fee add back up to the
/// whole amount.
pub proof fn lemma_transfer_conservation(
    m: Map<Seq<char>, u128>,
    o: Seq<char>,
    r1: Seq<char>,
    r2: Seq<char>,
    a: u128,
)
    requires
        a >= 1,
        r1 != r2,
        r1 != o,
        r2 != o,
        transfer_fits(m, o, r1, r2, a),
    ensures
        ({
            let mf = transfer_ledger(m, o, r1, r2, a);
            mf[r1] + mf[r2] + mf[o] == m[r1] + m[r2] + m[o] + a
        }),
{
    assert(half_of(a) + half_of(a) + fee_of(a) == a) by {
        vstd::arithmetic::div_mod::lemma_fundamental_div_mod(a as int, 2);
    }
}

/// Fairness: one transfer to two distinct fresh recipients, neither the
/// owner, leaves both with the same balance, half the amount each.
pub proof fn lemma_transfer_fairness(
    m: Map<Seq<char>, u128>,
    o: Seq<char>,
    r1: Seq<char>,
    r2: Seq<char>,
    a: u128,
)
    requires
        r1 != r2,
        r1 != o,
        r2 != o,
        m[r1] == 0,
        m[r2] == 0,
        transfer_fits(m, o, r1, r2, a),
    ensures
        transfer_ledger(m, o, r1, r2, a)[r1] == transfer_ledger(m, o, r1, r2, a)[r2],
        transfer_ledger(m, o, r1, r2, a)[r1] == half_of(a),
{
}

/// Fee correctness: a successful transfer of `a` to recipients other
/// than the owner grows the owner's balance by exactly `a % 2`.
pub proof fn lemma_transfer_fee(
    m: Map<Seq<char>, u128>,
    o: Seq<char>,
    r1: Seq<char>,
    r2: Seq<char>,
    a: u128,
)
    requires
        r1 != o,
        r2 != o,
        transfer_fits(m, o, r1, r2, a),
    ensures
        transfer_ledger(m, o, r1, r2, a)[o] == m[o] + fee_of(a),
{
}

/// Withdrawal conservation: a successful withdrawal of `w` by `x`
/// decreases `x`'s balance by exactly `w` and moves no other balance.
pub proof fn lemma_withdraw_conservation(
    pre: SeiContract,
    post: SeiContract,
    x: Seq<char>,
    w: u128,
    rcpt: WithdrawReceipt,
)
    requires
        withdraw_post(pre, post, w, x, Ok(rcpt)),
    ensures
        post.balance_of(x) == pre.balance_of(x) - w,
        forall|b: Seq<char>| b != x ==> #[trigger] post.balance_of(b) == pre.balance_of(b),
{
}

/// Insufficient funds: a withdrawal of more than the balance covers
/// fails, names the sender, and leaves every balance unchanged.
pub proof fn lemma_withdraw_insufficient(
    pre: SeiContract,
    post: SeiContract,
    x: Seq<char>,
    w: u128,
    r: Result<WithdrawReceipt, ContractError>,
)
    requires
        w >= 1,
        w > pre.balance_of(x),
        withdraw_post(pre, post, w, x, r),
    ensures
        r matches Err(e) && e matches ContractError::InsufficientBalance { sender } && sender@ == x,
        post == pre,
        forall|b: Seq<char>| #[trigger] post.balance_of(b) == pre.balance_of(b),
{
}

/// Zero withdrawal rejected: a withdrawal of zero fails as such whatever
/// the balance, and leaves every balance unchanged.
pub proof fn lemma_withdraw_zero(
    pre: SeiContract,
    post: SeiContract,
    x: Seq<char>,
    r: Result<WithdrawReceipt, ContractError>,
)
    requires
        withdraw_post(pre, post, 0, x, r),
    ensures
        r matches Err(e) && e matches ContractError::InvalidZeroAmount,
        post == pre,
        forall|b: Seq<char>| #[trigger] post.balance_of(b) == pre.balance_of(b),
{
}

/// Idempotent reads: two balance queries for the same address with no
/// mutation in between give the same answer.
pub proof fn lemma_get_balance_idempotent(
    c: SeiContract,
    addr: Seq<char>,
    r1: Result<GetBalanceResp, ContractError>,
    r2: Result<GetBalanceResp, ContractError>,
)
    requires
        get_balance_post(c, addr, r1),
        get_balance_post(c, addr, r2),
    ensures
        r1 matches Ok(a1) && r2 matches Ok(a2) ==> a1.addr@ == a2.addr@ && a1.balance
            == a2.balance,
{
}

/// Unknown address balance: an address with no ledger entry has balance
/// zero, so its query answers zero.
pub proof fn lemma_unknown_address_zero(c: SeiContract, addr: Seq<char>)
    requires
        forall|j: int| 0 <= j < c.balances@.len() ==> #[trigger] c.balances@[j].0@ != addr,
    ensures
        c.balance_of(addr) == 0,
{
    assert forall|j: int| 0 <= j < crate::ledger::entries_of(c.balances@).len() implies crate::ledger::entries_of(
        c.balances@,
    )[j].0 != addr by {
        assert(c.balances@[j].0@ != addr);
    }
    lemma_ledger_of_absent(crate::ledger::entries_of(c.balances@), addr);
}

/// Conservation restated at the contract level: what a successful
/// transfer call does to the three parties' balances together.
pub proof fn lemma_transfer_call_conservation(
    pre: SeiContract,
    post: SeiContract,
    r1: Seq<char>,
    r2: Seq<char>,
    funds: Seq<crate::payment::Coin>,
    contract_addr: Seq<char>,
    rcpt: TransferReceipt,
)
    requires
        pre.is_active(),
        r1 != r2,
        r1 != pre.owner_addr(),
        r2 != pre.owner_addr(),
        transfer_post(pre, post, r1, r2, funds, contract_addr, Ok(rcpt)),
    ensures
        post.balance_of(r1) + post.balance_of(r2) + post.balance_of(pre.owner_addr())
            == pre.balance_of(r1) + pre.balance_of(r2) + pre.balance_of(pre.owner_addr())
            + rcpt.amount,
{
    let o = pre.owner_addr();
    let a = rcpt.amount;
    assert(crate::payment::must_pay_spec(funds, pre.coin_denom@) matches Ok(x) && x == a);
    assert(a >= 1);
    lemma_transfer_conservation(pre.ledger(), o, r1, r2, a);
}

/// Fairness restated at the contract level: a successful transfer call to
/// two distinct fresh recipients, neither the owner, leaves each holding
/// the per-recipient share of the receipt.
pub proof fn lemma_transfer_call_fairness(
    pre: SeiContract,
    post: SeiContract,
    r1: Seq<char>,
    r2: Seq<char>,
    funds: Seq<crate::payment::Coin>,
    contract_addr: Seq<char>,
    rcpt: TransferReceipt,
)
    requires
        pre.is_active(),
        r1 != r2,
        r1 != pre.owner_addr(),
        r2 != pre.owner_addr(),
        pre.balance_of(r1) == 0,
        pre.balance_of(r2) == 0,
        transfer_post(pre, post, r1, r2, funds, contract_addr, Ok(rcpt)),
    ensures
        post.balance_of(r1) == post.balance_of(r2),
        post.balance_of(r1) == half_of(rcpt.amount),
        post.balance_of(r1) == rcpt.per_recipient,
{
    lemma_transfer_fairness(pre.ledger(), pre.owner_addr(), r1, r2, rcpt.amount);
}

/// Fee correctness restated at the contract level: a successful transfer
/// call to recipients other than the owner grows the owner's balance by
/// exactly the amount's remainder modulo two.
pub proof fn lemma_transfer_call_fee(
    pre: SeiContract,
    post: SeiContract,
    r1: Seq<char>,
    r2: Seq<char>,
    funds: Seq<crate::payment::Coin>,
    contract_addr: Seq<char>,
    rcpt: TransferReceipt,
)
    requires
        pre.is_active(),
        r1 != pre.owner_addr(),
        r2 != pre.owner_addr(),
        transfer_post(pre, post, r1, r2, funds, contract_addr, Ok(rcpt)),
    ensures
        post.balance_of(pre.owner_addr()) == pre.balance_of(pre.owner_addr()) + fee_of(
            rcpt.amount,
        ),
{
    lemma_transfer_fee(pre.ledger(), pre.owner_addr(), r1, r2, rcpt.amount);
}

} // verus!
