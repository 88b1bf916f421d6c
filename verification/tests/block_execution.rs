use mini_runtime::balances;
use mini_runtime::proof_of_existence;
use mini_runtime::runtime::{Block, Runtime, RuntimeCall};
use mini_runtime::support::{Extrinsic, Header, ErrorKind};

fn transfer(to: &str, amount: u128) -> RuntimeCall {
    RuntimeCall::Balances(balances::Call::Transfer { to: String::from(to), amount })
}

fn create_claim(claim: &str) -> RuntimeCall {
    RuntimeCall::PoE(proof_of_existence::Call::CreateClaim { claim: String::from(claim) })
}

fn revoke_claim(claim: &str) -> RuntimeCall {
    RuntimeCall::PoE(proof_of_existence::Call::RevokeClaim { claim: String::from(claim) })
}

fn block(number: u32, extrinsics: Vec<(&str, RuntimeCall)>) -> Block {
    Block {
        header: Header { block_number: number },
        extrinsics: extrinsics
            .into_iter()
            .map(|(caller, call)| Extrinsic { caller: String::from(caller), call })
            .collect(),
    }
}

#[test]
fn test_new_runtime_is_empty() {
    let runtime = Runtime::new();

    assert_eq!(runtime.system.block_number(), 0);
    assert_eq!(runtime.system.nonce(&String::from("alice")), 0);
    assert_eq!(runtime.balances.balance(&String::from("alice")), 0);
}

#[test]
fn test_block_sequencing() {
    let mut runtime = Runtime::new();

    assert_eq!(runtime.system.block_number(), 0);

    let ok = runtime.execute_block(block(1, vec![]));
    assert_eq!(ok, Ok(()));
    assert_eq!(runtime.system.block_number(), 1);

    let stale = runtime.execute_block(block(1, vec![]));
    assert_eq!(stale, Err(ErrorKind::BlockNumberMismatch));
    assert_eq!(runtime.system.block_number(), 2);
}

#[test]
fn test_executed_transfer_moves_funds() {
    let mut runtime = Runtime::new();
    runtime.balances.set_balance(String::from("alice"), 100);

    let result = runtime.execute_block(block(1, vec![("alice", transfer("bob", 30))]));

    assert_eq!(result, Ok(()));
    assert_eq!(runtime.balances.balance(&String::from("alice")), 70);
    assert_eq!(runtime.balances.balance(&String::from("bob")), 30);
}

#[test]
fn test_nonce_monotonicity() {
    let mut runtime = Runtime::new();
    runtime.balances.set_balance(String::from("alice"), 100);

    let first = runtime.execute_block(block(
        1,
        vec![("alice", transfer("bob", 10)), ("alice", create_claim("doc"))],
    ));
    assert_eq!(first, Ok(()));
    assert_eq!(runtime.system.nonce(&String::from("alice")), 2);

    let second = runtime.execute_block(block(2, vec![("alice", transfer("bob", 20))]));
    assert_eq!(second, Ok(()));
    assert_eq!(runtime.system.nonce(&String::from("alice")), 3);

    let failed = runtime.execute_block(block(3, vec![("alice", revoke_claim("nope"))]));
    assert_eq!(failed, Err(ErrorKind::ClaimNotFound));
    assert_eq!(runtime.system.nonce(&String::from("alice")), 3);

    assert_eq!(runtime.system.nonce(&String::from("bob")), 0);
}

#[test]
fn test_partial_block_abort() {
    let mut runtime = Runtime::new();
    runtime.balances.set_balance(String::from("alice"), 100);

    let result = runtime.execute_block(block(
        1,
        vec![
            ("alice", transfer("bob", 30)),
            ("alice", revoke_claim("missing")),
            ("alice", transfer("bob", 30)),
        ],
    ));

    assert_eq!(result, Err(ErrorKind::ClaimNotFound));
    assert_eq!(runtime.balances.balance(&String::from("alice")), 70);
    assert_eq!(runtime.balances.balance(&String::from("bob")), 30);
    assert_eq!(runtime.system.nonce(&String::from("alice")), 1);
}

#[test]
fn test_dispatch_errors_surface_through_blocks() {
    let mut runtime = Runtime::new();
    runtime.balances.set_balance(String::from("alice"), 100);

    let underflow = runtime.execute_block(block(1, vec![("alice", transfer("bob", 150))]));
    assert_eq!(underflow, Err(ErrorKind::InsufficientBalance));

    let claimed = runtime.execute_block(block(2, vec![("alice", create_claim("c1"))]));
    assert_eq!(claimed, Ok(()));

    let duplicate = runtime.execute_block(block(3, vec![("bob", create_claim("c1"))]));
    assert_eq!(duplicate, Err(ErrorKind::ClaimAlreadyExists));

    let not_owner = runtime.execute_block(block(4, vec![("bob", revoke_claim("c1"))]));
    assert_eq!(not_owner, Err(ErrorKind::NotClaimOwner));
}
