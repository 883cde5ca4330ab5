use ledger_runtime::balances;
use ledger_runtime::proof_of_existence;
use ledger_runtime::support::Error;
use ledger_runtime::types::{Block, Extrinsic, Header};
use ledger_runtime::{Runtime, RuntimeCall};

fn transfer_call(to: &str, amount: u128) -> RuntimeCall {
    RuntimeCall::Balances(balances::Call::Transfer {
        to: to.to_string(),
        amount,
    })
}

fn create_claim_call(claim: &str) -> RuntimeCall {
    RuntimeCall::ProofOfExistence(proof_of_existence::Call::CreateClaim {
        claim: claim.to_string(),
    })
}

fn revoke_claim_call(claim: &str) -> RuntimeCall {
    RuntimeCall::ProofOfExistence(proof_of_existence::Call::RevokeClaim {
        claim: claim.to_string(),
    })
}

#[test]
fn fresh_runtime_executes_first_block() {
    let a = "A".to_string();
    let mut runtime = Runtime::new();
    assert_eq!(runtime.system.block_number(), 0);
    let block = Block {
        header: Header { block_number: 1 },
        extrinsics: vec![Extrinsic {
            caller: a.clone(),
            call: transfer_call("B", 50),
        }],
    };

    let result = runtime.execute_block(block);

    // The block itself is accepted; the unfunded transfer fails inside it.
    assert_eq!(result, Ok(vec![Err(Error::InsufficientFunds)]));
    assert_eq!(runtime.system.block_number(), 1);
    assert_eq!(runtime.system.get_nonce(&a), 1);
}

#[test]
fn two_blocks_compose() {
    let a = "A".to_string();
    let b = "B".to_string();
    let mut runtime = Runtime::new();
    runtime.balances.set_balance(&a, 100);

    let block = Block {
        header: Header { block_number: 1 },
        extrinsics: vec![
            Extrinsic {
                caller: a.clone(),
                call: transfer_call("B", 50),
            },
            Extrinsic {
                caller: b.clone(),
                call: transfer_call("B", 50),
            },
        ],
    };
    assert_eq!(runtime.execute_block(block), Ok(vec![Ok(()), Ok(())]));
    assert_eq!(runtime.balances.balance(&a), 50);
    // The second extrinsic is a covered self-transfer: net zero effect.
    assert_eq!(runtime.balances.balance(&b), 50);

    let block1 = Block {
        header: Header { block_number: 2 },
        extrinsics: vec![
            Extrinsic {
                caller: a.clone(),
                call: create_claim_call("transactionA"),
            },
            Extrinsic {
                caller: b.clone(),
                call: create_claim_call("transactionB"),
            },
        ],
    };
    assert_eq!(runtime.execute_block(block1), Ok(vec![Ok(()), Ok(())]));
    assert_eq!(runtime.system.block_number(), 2);
    assert_eq!(runtime.system.get_nonce(&a), 2);
    assert_eq!(runtime.system.get_nonce(&b), 2);
    assert_eq!(
        runtime.proof_of_existence.get_claim(&"transactionA".to_string()),
        Some(&a)
    );
    assert_eq!(
        runtime.proof_of_existence.get_claim(&"transactionB".to_string()),
        Some(&b)
    );
}

#[test]
fn header_mismatch_rejects_block_but_advances_counter() {
    let a = "A".to_string();
    let mut runtime = Runtime::new();
    runtime.balances.set_balance(&a, 100);
    let block = Block {
        header: Header { block_number: 5 },
        extrinsics: vec![Extrinsic {
            caller: a.clone(),
            call: transfer_call("B", 50),
        }],
    };

    assert_eq!(runtime.execute_block(block), Err(Error::BlockNumberMismatch));
    // The counter still advanced, and no extrinsic ran.
    assert_eq!(runtime.system.block_number(), 1);
    assert_eq!(runtime.system.get_nonce(&a), 0);
    assert_eq!(runtime.balances.balance(&a), 100);
}

#[test]
fn dispatch_failure_does_not_stop_later_extrinsics() {
    let a = "A".to_string();
    let mut runtime = Runtime::new();
    let block = Block {
        header: Header { block_number: 1 },
        extrinsics: vec![
            Extrinsic {
                caller: a.clone(),
                call: transfer_call("B", 999),
            },
            Extrinsic {
                caller: a.clone(),
                call: create_claim_call("tx1"),
            },
            Extrinsic {
                caller: a.clone(),
                call: revoke_claim_call("missing"),
            },
        ],
    };

    let result = runtime.execute_block(block);

    assert_eq!(
        result,
        Ok(vec![
            Err(Error::InsufficientFunds),
            Ok(()),
            Err(Error::ClaimNotFound),
        ])
    );
    // Every extrinsic was attempted and counted, failures included.
    assert_eq!(runtime.system.get_nonce(&a), 3);
    assert_eq!(
        runtime.proof_of_existence.get_claim(&"tx1".to_string()),
        Some(&a)
    );
}

#[test]
fn claim_lifecycle_across_callers() {
    let a = "A".to_string();
    let b = "B".to_string();
    let mut runtime = Runtime::new();

    let block = Block {
        header: Header { block_number: 1 },
        extrinsics: vec![
            Extrinsic {
                caller: a.clone(),
                call: create_claim_call("tx1"),
            },
            Extrinsic {
                caller: b.clone(),
                call: create_claim_call("tx1"),
            },
            Extrinsic {
                caller: b.clone(),
                call: revoke_claim_call("tx1"),
            },
            Extrinsic {
                caller: a.clone(),
                call: revoke_claim_call("tx1"),
            },
        ],
    };

    let result = runtime.execute_block(block);

    assert_eq!(
        result,
        Ok(vec![
            Ok(()),
            Err(Error::ClaimAlreadyExists),
            Err(Error::NotClaimOwner),
            Ok(()),
        ])
    );
    assert_eq!(
        runtime.proof_of_existence.get_claim(&"tx1".to_string()),
        None
    );
}
