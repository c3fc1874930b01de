use escrow_core::factory::{EscrowFactory, EscrowFactoryError};
use escrow_core::types::{AccountId, Hash256};

fn hash(byte: u8) -> Hash256 {
    Hash256::from_bytes([byte; 32])
}

fn account(byte: u8) -> AccountId {
    AccountId::from_bytes([byte; 32])
}

#[test]
fn lib_test_new() {
    let code_hash = hash(1);
    let factory = EscrowFactory::new(code_hash);
    assert_eq!(factory.get_escrow_dst_code_hash(), code_hash);
}

#[test]
fn test_get_deployed_escrow() {
    let code_hash = hash(1);
    let factory = EscrowFactory::new(code_hash);
    let salt = hash(2);
    assert_eq!(factory.get_deployed_escrow(salt), None);
}

#[test]
fn test_deploy_escrow() {
    let code_hash = hash(1);
    let mut factory = EscrowFactory::new(code_hash);
    assert_eq!(factory.get_escrow_dst_code_hash(), code_hash);

    let salt = hash(2);
    let maker = account(3);
    let taker = account(4);
    let escrow_addr = account(9);

    let deployed = factory
        .deploy_escrow(salt, maker, taker, hash(5), 4, 1000, Some(escrow_addr))
        .unwrap();
    assert_eq!(deployed.escrow, escrow_addr);
    assert_eq!(deployed.salt, salt);
    assert_eq!(deployed.maker, maker);
    assert_eq!(deployed.taker, taker);
    assert_eq!(factory.get_deployed_escrow(salt), Some(escrow_addr));
}

#[test]
fn test_deploy_escrow_used_salt_rejected() {
    // A used salt is rejected and the existing entry stays as it was
    let mut factory = EscrowFactory::new(hash(1));
    let salt = hash(2);
    let first = account(9);

    let r1 = factory.deploy_escrow(salt, account(3), account(4), hash(5), 4, 1000, Some(first));
    assert!(r1.is_ok());

    let r2 = factory.deploy_escrow(salt, account(6), account(7), hash(8), 2, 500, Some(account(10)));
    assert_eq!(r2.err(), Some(EscrowFactoryError::EscrowAlreadyExists));
    assert_eq!(factory.get_deployed_escrow(salt), Some(first));
}

#[test]
fn test_deploy_escrow_host_failure() {
    // A host-side instantiation failure records nothing
    let mut factory = EscrowFactory::new(hash(1));
    let salt = hash(2);

    let r = factory.deploy_escrow(salt, account(3), account(4), hash(5), 4, 1000, None);
    assert_eq!(r.err(), Some(EscrowFactoryError::DeploymentFailed));
    assert_eq!(factory.get_deployed_escrow(salt), None);

    // The salt stays free: a later deployment under it may still succeed
    let retry = factory.deploy_escrow(salt, account(3), account(4), hash(5), 4, 1000, Some(account(9)));
    assert!(retry.is_ok());
    assert_eq!(factory.get_deployed_escrow(salt), Some(account(9)));
}

#[test]
fn test_distinct_salts_coexist() {
    let mut factory = EscrowFactory::new(hash(1));
    let r1 = factory.deploy_escrow(hash(2), account(3), account(4), hash(5), 4, 1000, Some(account(9)));
    let r2 = factory.deploy_escrow(hash(6), account(3), account(4), hash(5), 4, 1000, Some(account(10)));
    assert!(r1.is_ok());
    assert!(r2.is_ok());
    assert_eq!(factory.get_deployed_escrow(hash(2)), Some(account(9)));
    assert_eq!(factory.get_deployed_escrow(hash(6)), Some(account(10)));
    assert_eq!(factory.get_deployed_escrow(hash(7)), None);
}
