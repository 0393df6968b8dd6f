use sei_ledger::contract::{InstantiateMsgData, SeiContract};
use sei_ledger::errors::{ContractError, PaymentError};
use sei_ledger::payment::{must_pay, Coin};
use sei_ledger::responses::{GetBalanceResp, OwnerResp};
use sei_ledger::{execute, instantiate, query, CallInfo, ExecMsg, ExecResp, InstantiateMsg, QueryMsg, QueryResp};

const SEI: &str = "sei";

fn active_contract(owner: &str) -> SeiContract {
    let mut contract = SeiContract::new();
    contract
        .instantiate(
            InstantiateMsgData { coin_denom: SEI.to_string() },
            owner.to_string(),
        )
        .unwrap();
    contract
}

fn coins(amount: u128, denom: &str) -> Vec<Coin> {
    vec![Coin { denom: denom.to_string(), amount }]
}

#[test]
fn must_pay_accepts_one_matching_coin() {
    assert_eq!(must_pay(&coins(10, SEI), &SEI.to_string()), Ok(10));
}

#[test]
fn must_pay_rejects_missing_funds() {
    assert_eq!(must_pay(&Vec::new(), &SEI.to_string()), Err(PaymentError::NoPayment));
}

#[test]
fn must_pay_rejects_zero_amount_as_no_payment() {
    assert_eq!(must_pay(&coins(0, SEI), &SEI.to_string()), Err(PaymentError::NoPayment));
}

#[test]
fn must_pay_rejects_multiple_entries() {
    let mut funds = coins(3, SEI);
    funds.push(Coin { denom: "atom".to_string(), amount: 4 });
    assert_eq!(must_pay(&funds, &SEI.to_string()), Err(PaymentError::MultiplePayments));
}

#[test]
fn must_pay_rejects_wrong_denomination() {
    assert_eq!(must_pay(&coins(3, "atom"), &SEI.to_string()), Err(PaymentError::WrongDenomination));
}

#[test]
fn transfer_surfaces_payment_errors_without_mutation() {
    let mut contract = active_contract("addr0000");

    let err = contract
        .transfer(
            "addr0001".to_string(),
            "addr0002".to_string(),
            &Vec::new(),
            "contract0".to_string(),
        )
        .unwrap_err();
    assert_eq!(err, ContractError::Payment(PaymentError::NoPayment));

    let err = contract
        .transfer(
            "addr0001".to_string(),
            "addr0002".to_string(),
            &coins(10, "atom"),
            "contract0".to_string(),
        )
        .unwrap_err();
    assert_eq!(err, ContractError::Payment(PaymentError::WrongDenomination));

    assert_eq!(contract.get_balance("addr0001".to_string()).unwrap().balance, 0);
    assert_eq!(contract.get_balance("addr0002".to_string()).unwrap().balance, 0);
}

#[test]
fn transfer_of_one_gives_all_to_owner_as_fee() {
    let mut contract = active_contract("addr0000");

    let receipt = contract
        .transfer(
            "addr0001".to_string(),
            "addr0002".to_string(),
            &coins(1, SEI),
            "contract0".to_string(),
        )
        .unwrap();

    assert_eq!(receipt.per_recipient, 0);
    assert_eq!(receipt.payment.amount, 0);
    assert_eq!(contract.get_balance("addr0001".to_string()).unwrap().balance, 0);
    assert_eq!(contract.get_balance("addr0002".to_string()).unwrap().balance, 0);
    assert_eq!(contract.get_balance("addr0000".to_string()).unwrap().balance, 1);
}

#[test]
fn recipient_in_both_roles_is_credited_twice() {
    let mut contract = active_contract("addr0000");

    contract
        .transfer(
            "addr0001".to_string(),
            "addr0001".to_string(),
            &coins(10, SEI),
            "contract0".to_string(),
        )
        .unwrap();

    assert_eq!(contract.get_balance("addr0001".to_string()).unwrap().balance, 10);
}

#[test]
fn transfer_conservation_on_odd_amount() {
    let mut contract = active_contract("addr0000");

    contract
        .transfer(
            "addr0001".to_string(),
            "addr0002".to_string(),
            &coins(7, SEI),
            "contract0".to_string(),
        )
        .unwrap();

    let one = contract.get_balance("addr0001".to_string()).unwrap().balance;
    let two = contract.get_balance("addr0002".to_string()).unwrap().balance;
    let owner = contract.get_balance("addr0000".to_string()).unwrap().balance;
    assert_eq!(one, 3);
    assert_eq!(two, 3);
    assert_eq!(owner, 1);
    assert_eq!(one + two + owner, 7);
}

#[test]
fn overflowing_credit_fails_and_keeps_state() {
    let mut contract = SeiContract {
        owner: Some("addr0000".to_string()),
        coin_denom: SEI.to_string(),
        balances: vec![("addr0001".to_string(), u128::MAX)],
    };

    let err = contract
        .transfer(
            "addr0001".to_string(),
            "addr0002".to_string(),
            &coins(10, SEI),
            "contract0".to_string(),
        )
        .unwrap_err();

    assert_eq!(err, ContractError::Overflow);
    assert_eq!(contract.get_balance("addr0001".to_string()).unwrap().balance, u128::MAX);
    assert_eq!(contract.get_balance("addr0002".to_string()).unwrap().balance, 0);
}

#[test]
fn overflowing_fee_credit_fails_and_keeps_state() {
    let mut contract = SeiContract {
        owner: Some("addr0000".to_string()),
        coin_denom: SEI.to_string(),
        balances: vec![("addr0000".to_string(), u128::MAX)],
    };

    let err = contract
        .transfer(
            "addr0001".to_string(),
            "addr0002".to_string(),
            &coins(3, SEI),
            "contract0".to_string(),
        )
        .unwrap_err();

    assert_eq!(err, ContractError::Overflow);
    assert_eq!(contract.get_balance("addr0000".to_string()).unwrap().balance, u128::MAX);
    assert_eq!(contract.get_balance("addr0001".to_string()).unwrap().balance, 0);
}

#[test]
fn get_balance_is_idempotent_without_mutation() {
    let mut contract = active_contract("addr0000");
    contract
        .transfer(
            "addr0001".to_string(),
            "addr0002".to_string(),
            &coins(9, SEI),
            "contract0".to_string(),
        )
        .unwrap();

    let first = contract.get_balance("addr0001".to_string()).unwrap();
    let second = contract.get_balance("addr0001".to_string()).unwrap();
    assert_eq!(first, second);
}

#[test]
fn unknown_address_has_zero_balance() {
    let contract = active_contract("addr0000");
    assert_eq!(
        contract.get_balance("addr9999".to_string()).unwrap(),
        GetBalanceResp { addr: "addr9999".to_string(), balance: 0 }
    );
}

#[test]
fn owner_query_falls_back_to_empty_string() {
    let contract = SeiContract::new();
    assert_eq!(contract.get_owner().unwrap(), OwnerResp { owner: String::new() });
}

#[test]
fn dispatch_routes_all_messages() {
    let mut contract = SeiContract::new();
    instantiate(
        &mut contract,
        InstantiateMsg { data: InstantiateMsgData { coin_denom: SEI.to_string() } },
        "addr0000".to_string(),
    )
    .unwrap();

    let resp = query(&contract, QueryMsg::GetOwner {}).unwrap();
    assert_eq!(resp, QueryResp::Owner(OwnerResp { owner: "addr0000".to_string() }));

    let info = CallInfo {
        sender: "addr0000".to_string(),
        funds: coins(10, SEI),
        contract_address: "contract0".to_string(),
    };
    let resp = execute(
        &mut contract,
        info,
        ExecMsg::Transfer {
            recipient_one: "addr0001".to_string(),
            recipient_two: "addr0002".to_string(),
        },
    )
    .unwrap();
    match resp {
        ExecResp::Transfer(receipt) => assert_eq!(receipt.amount, 10),
        other => panic!("transfer answered with the wrong receipt: {:?}", other),
    }

    let info = CallInfo {
        sender: "addr0001".to_string(),
        funds: Vec::new(),
        contract_address: "contract0".to_string(),
    };
    let resp = execute(&mut contract, info, ExecMsg::Withdraw { amount: 2 }).unwrap();
    match resp {
        ExecResp::Withdraw(receipt) => assert_eq!(receipt.amount, 2),
        other => panic!("withdraw answered with the wrong receipt: {:?}", other),
    }

    let resp = query(&contract, QueryMsg::GetBalance { addr_str: "addr0001".to_string() }).unwrap();
    assert_eq!(
        resp,
        QueryResp::Balance(GetBalanceResp { addr: "addr0001".to_string(), balance: 3 })
    );
}
