use ledger_runtime::balances;
use ledger_runtime::proof_of_existence;
use ledger_runtime::support::{BlockError, DispatchError, Extrinsic, Header};
use ledger_runtime::{Block, Runtime, RuntimeCall};

fn transfer(caller: &str, to: &str, amount: u128) -> Extrinsic<String, RuntimeCall> {
    Extrinsic {
        caller: caller.to_string(),
        call: RuntimeCall::Balances(balances::Call::Transfer {
            to: to.to_string(),
            amount,
        }),
    }
}

fn create_claim(caller: &str, claim: &str) -> Extrinsic<String, RuntimeCall> {
    Extrinsic {
        caller: caller.to_string(),
        call: RuntimeCall::ProofOfExistence(proof_of_existence::Call::CreateClaim {
            claim: claim.to_string(),
        }),
    }
}

fn revoke_claim(caller: &str, claim: &str) -> Extrinsic<String, RuntimeCall> {
    Extrinsic {
        caller: caller.to_string(),
        call: RuntimeCall::ProofOfExistence(proof_of_existence::Call::RevokeClaim {
            claim: claim.to_string(),
        }),
    }
}

fn block(number: u32, extrinsics: Vec<Extrinsic<String, RuntimeCall>>) -> Block {
    Block {
        header: Header {
            block_number: number,
        },
        extrinsics,
    }
}

#[test]
fn fresh_runtime_is_empty() {
    let rt = Runtime::new();
    assert_eq!(rt.system.block_number(), 0);
    assert_eq!(rt.system.nonce(&"alice".to_string()), 0);
    assert_eq!(rt.balances.balance(&"alice".to_string()), 0);
    assert!(rt.poe.get_claim(&"anything".to_string()).is_none());
}

#[test]
fn one_block_of_transfers() {
    let mut rt = Runtime::new();
    let alice = "alice".to_string();
    rt.balances.set_balance(&alice, 100);

    let b = block(1, vec![transfer("alice", "bob", 30), transfer("alice", "charlie", 20)]);
    let failures = rt.execute_block(b).expect("the header number matches");

    assert!(failures.is_empty());
    assert_eq!(rt.balances.balance(&alice), 50);
    assert_eq!(rt.balances.balance(&"bob".to_string()), 30);
    assert_eq!(rt.balances.balance(&"charlie".to_string()), 20);
    assert_eq!(rt.system.nonce(&alice), 2);
    assert_eq!(rt.system.block_number(), 1);
}

#[test]
fn insufficient_balance_mutates_nothing() {
    let mut rt = Runtime::new();
    let alice = "alice".to_string();
    let bob = "bob".to_string();
    rt.balances.set_balance(&alice, 10);

    let r = rt.balances.transfer(alice.clone(), bob.clone(), 11);
    assert_eq!(r, Err(DispatchError::InsufficientBalance));
    assert_eq!(rt.balances.balance(&alice), 10);
    assert_eq!(rt.balances.balance(&bob), 0);
}

#[test]
fn transfer_overflow_mutates_nothing() {
    let mut rt = Runtime::new();
    let alice = "alice".to_string();
    let bob = "bob".to_string();
    rt.balances.set_balance(&alice, 5);
    rt.balances.set_balance(&bob, u128::MAX - 2);

    let r = rt.balances.transfer(alice.clone(), bob.clone(), 3);
    assert_eq!(r, Err(DispatchError::Overflow));
    assert_eq!(rt.balances.balance(&alice), 5);
    assert_eq!(rt.balances.balance(&bob), u128::MAX - 2);
}

#[test]
fn transfer_to_self_leaves_balance_unchanged() {
    let mut rt = Runtime::new();
    let alice = "alice".to_string();
    rt.balances.set_balance(&alice, 40);

    let r = rt.balances.transfer(alice.clone(), alice.clone(), 25);
    assert_eq!(r, Ok(()));
    assert_eq!(rt.balances.balance(&alice), 40);

    let r = rt.balances.transfer(alice.clone(), alice.clone(), 41);
    assert_eq!(r, Err(DispatchError::InsufficientBalance));
    assert_eq!(rt.balances.balance(&alice), 40);
}

#[test]
fn transfer_conserves_value() {
    let mut rt = Runtime::new();
    let alice = "alice".to_string();
    let bob = "bob".to_string();
    rt.balances.set_balance(&alice, 60);
    rt.balances.set_balance(&bob, 7);
    let before = rt.balances.balance(&alice) + rt.balances.balance(&bob);

    let r = rt.balances.transfer(alice.clone(), bob.clone(), 59);
    assert_eq!(r, Ok(()));
    assert_eq!(rt.balances.balance(&alice) + rt.balances.balance(&bob), before);
}

#[test]
fn second_claim_of_same_content_is_rejected() {
    let mut rt = Runtime::new();
    let content = "document".to_string();

    assert_eq!(rt.poe.create_claim("alice".to_string(), content.clone()), Ok(()));
    assert_eq!(
        rt.poe.create_claim("bob".to_string(), content.clone()),
        Err(DispatchError::AlreadyClaimed)
    );
    assert_eq!(
        rt.poe.create_claim("alice".to_string(), content.clone()),
        Err(DispatchError::AlreadyClaimed)
    );
    assert_eq!(rt.poe.get_claim(&content), Some(&"alice".to_string()));
}

#[test]
fn revoke_by_non_owner_is_rejected() {
    let mut rt = Runtime::new();
    let content = "document".to_string();

    assert_eq!(rt.poe.create_claim("alice".to_string(), content.clone()), Ok(()));
    assert_eq!(
        rt.poe.revoke_claim("bob".to_string(), content.clone()),
        Err(DispatchError::NotClaimOwner)
    );
    assert_eq!(rt.poe.get_claim(&content), Some(&"alice".to_string()));
}

#[test]
fn revoke_of_unclaimed_content_is_rejected() {
    let mut rt = Runtime::new();
    assert_eq!(
        rt.poe.revoke_claim("alice".to_string(), "nothing here".to_string()),
        Err(DispatchError::NoSuchClaim)
    );
}

#[test]
fn revoke_by_owner_frees_the_content() {
    let mut rt = Runtime::new();
    let content = "document".to_string();

    assert_eq!(rt.poe.create_claim("alice".to_string(), content.clone()), Ok(()));
    assert_eq!(rt.poe.revoke_claim("alice".to_string(), content.clone()), Ok(()));
    assert!(rt.poe.get_claim(&content).is_none());
    assert_eq!(rt.poe.create_claim("bob".to_string(), content.clone()), Ok(()));
    assert_eq!(rt.poe.get_claim(&content), Some(&"bob".to_string()));
}

#[test]
fn mismatched_header_rejects_the_block() {
    let mut rt = Runtime::new();
    let alice = "alice".to_string();
    rt.balances.set_balance(&alice, 100);

    let b = block(2, vec![transfer("alice", "bob", 30)]);
    let r = rt.execute_block(b);
    assert_eq!(r, Err(BlockError::BlockNumberMismatch));

    // The height advance is deliberately not rolled back...
    assert_eq!(rt.system.block_number(), 1);
    // ...but no extrinsic was dispatched: no nonce, balance or claim moved.
    assert_eq!(rt.system.nonce(&alice), 0);
    assert_eq!(rt.balances.balance(&alice), 100);
    assert_eq!(rt.balances.balance(&"bob".to_string()), 0);
}

#[test]
fn failed_extrinsic_is_reported_and_the_block_goes_on() {
    let mut rt = Runtime::new();
    let content = "Hello, world!";

    let b1 = block(1, vec![create_claim("alice", content)]);
    let failures = rt.execute_block(b1).expect("the header number matches");
    assert!(failures.is_empty());

    let b2 = block(2, vec![create_claim("bob", content), create_claim("bob", "fresh")]);
    let failures = rt.execute_block(b2).expect("the header number matches");

    assert_eq!(failures.len(), 1);
    assert_eq!(failures[0].block_number, 2);
    assert_eq!(failures[0].index, 0);
    assert_eq!(failures[0].error, DispatchError::AlreadyClaimed);

    // The first caller still owns the claim, and bob's nonce moved for the
    // failed attempt as well as for the successful one.
    assert_eq!(rt.poe.get_claim(&content.to_string()), Some(&"alice".to_string()));
    assert_eq!(rt.system.nonce(&"bob".to_string()), 2);
}

#[test]
fn nonce_counts_every_authored_extrinsic() {
    let mut rt = Runtime::new();
    let alice = "alice".to_string();
    rt.balances.set_balance(&alice, 10);

    // Three extrinsics authored by alice: one succeeds, two fail.
    let b = block(
        1,
        vec![
            transfer("alice", "bob", 5),
            transfer("alice", "bob", 100),
            revoke_claim("alice", "unclaimed"),
        ],
    );
    let failures = rt.execute_block(b).expect("the header number matches");

    assert_eq!(failures.len(), 2);
    assert_eq!(failures[0].index, 1);
    assert_eq!(failures[0].error, DispatchError::InsufficientBalance);
    assert_eq!(failures[1].index, 2);
    assert_eq!(failures[1].error, DispatchError::NoSuchClaim);
    assert_eq!(rt.system.nonce(&alice), 3);
    assert_eq!(rt.system.nonce(&"bob".to_string()), 0);
}

#[test]
fn four_block_run() {
    let mut rt = Runtime::new();
    let alice = "alice".to_string();
    let bob = "bob".to_string();
    let charlie = "charlie".to_string();
    rt.balances.set_balance(&alice, 100);

    let b1 = block(1, vec![transfer("alice", "bob", 30), transfer("alice", "charlie", 20)]);
    let b2 = block(2, vec![transfer("charlie", "alice", 10), transfer("bob", "charlie", 10)]);
    let b3 = block(
        3,
        vec![create_claim("alice", "Hello, world!"), create_claim("bob", "I love you!")],
    );
    let b4 = block(
        4,
        vec![revoke_claim("alice", "Hello, world!"), create_claim("bob", "Hello, world!")],
    );

    assert!(rt.execute_block(b1).expect("valid block").is_empty());
    assert!(rt.execute_block(b2).expect("valid block").is_empty());
    assert!(rt.execute_block(b3).expect("valid block").is_empty());
    assert!(rt.execute_block(b4).expect("valid block").is_empty());

    assert_eq!(rt.system.block_number(), 4);
    assert_eq!(rt.balances.balance(&alice), 60);
    assert_eq!(rt.balances.balance(&bob), 20);
    assert_eq!(rt.balances.balance(&charlie), 20);
    assert_eq!(rt.system.nonce(&alice), 4);
    assert_eq!(rt.system.nonce(&bob), 3);
    assert_eq!(rt.system.nonce(&charlie), 1);
    assert_eq!(
        rt.poe.get_claim(&"Hello, world!".to_string()),
        Some(&"bob".to_string())
    );
    assert_eq!(
        rt.poe.get_claim(&"I love you!".to_string()),
        Some(&"bob".to_string())
    );
}

#[test]
fn dispatch_routes_and_passes_errors_through() {
    let mut rt = Runtime::new();
    let alice = "alice".to_string();
    rt.balances.set_balance(&alice, 3);

    let r = rt.dispatch(
        alice.clone(),
        RuntimeCall::Balances(balances::Call::Transfer {
            to: "bob".to_string(),
            amount: 2,
        }),
    );
    assert_eq!(r, Ok(()));
    assert_eq!(rt.balances.balance(&alice), 1);

    let r = rt.dispatch(
        alice.clone(),
        RuntimeCall::ProofOfExistence(proof_of_existence::Call::RevokeClaim {
            claim: "unclaimed".to_string(),
        }),
    );
    assert_eq!(r, Err(DispatchError::NoSuchClaim));

    // Dispatch never touches nonces or the height.
    assert_eq!(rt.system.nonce(&alice), 0);
    assert_eq!(rt.system.block_number(), 0);
}

#[test]
fn empty_block_executes() {
    let mut rt = Runtime::new();
    let failures = rt.execute_block(block(1, vec![])).expect("the header number matches");
    assert!(failures.is_empty());
    assert_eq!(rt.system.block_number(), 1);
}

#[test]
fn transfer_up_to_exact_capacity_succeeds() {
    let mut rt = Runtime::new();
    let alice = "alice".to_string();
    let bob = "bob".to_string();
    rt.balances.set_balance(&alice, 3);
    rt.balances.set_balance(&bob, u128::MAX - 3);

    let r = rt.balances.transfer(alice.clone(), bob.clone(), 3);
    assert_eq!(r, Ok(()));
    assert_eq!(rt.balances.balance(&alice), 0);
    assert_eq!(rt.balances.balance(&bob), u128::MAX);
}

#[test]
fn set_balance_overwrites() {
    let mut rt = Runtime::new();
    let alice = "alice".to_string();
    rt.balances.set_balance(&alice, 100);
    rt.balances.set_balance(&alice, 42);
    assert_eq!(rt.balances.balance(&alice), 42);
}
