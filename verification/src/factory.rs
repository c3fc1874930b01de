//! The escrow factory: a salt-keyed, append-only registry of deployed
//! escrows. The host's deterministic instantiation — the new address is a
//! pure function of deployer, code template, salt, and constructor
//! arguments — stays outside; the factory checks the salt, asks for one
//! instantiation, and records the answer.

use vstd::prelude::*;
use crate::types::{bytes32_eq, AccountId, Hash256};

verus! {

/// Why a deployment was rejected.
#[derive(Clone, Copy, Debug, PartialEq, Eq, Structural)]
pub enum EscrowFactoryError {
    EscrowAlreadyExists,
    DeploymentFailed,
}

/// The record of one deployment, for the host to emit; `escrow` is the
/// address the host instantiated under `salt`.
pub struct EscrowDeployed {
    pub salt: Hash256,
    pub escrow: AccountId,
    pub maker: AccountId,
    pub taker: AccountId,
}

/// The constructor arguments the factory hands the host when it asks for one
/// escrow instantiation.
pub struct EscrowDstConstructorArgs {
    pub maker: AccountId,
    pub taker: AccountId,
    pub merkle_root: Hash256,
    pub parts_count: u32,
    pub expiry_timestamp: u64,
}

/// The first address registered under `salt`, if any.
pub open spec fn lookup_salt(entries: Seq<(Hash256, AccountId)>, salt: Seq<u8>) -> Option<
    AccountId,
>
    decreases entries.len(),
{
    if entries.len() == 0 {
        None
    } else if entries[0].0@ == salt {
        Some(entries[0].1)
    } else {
        lookup_salt(entries.drop_first(), salt)
    }
}

/// When a salt is not registered, no entry carries it.
pub proof fn lemma_lookup_none_no_match(entries: Seq<(Hash256, AccountId)>, salt: Seq<u8>)
    requires
        lookup_salt(entries, salt) is None,
    ensures
        forall|i: int| 0 <= i < entries.len() ==> entries[i].0@ != salt,
    decreases entries.len(),
{
    if entries.len() > 0 {
        lemma_lookup_none_no_match(entries.drop_first(), salt);
        assert forall|i: int| 0 <= i < entries.len() implies entries[i].0@ != salt by {
            if i > 0 {
                assert(entries.drop_first()[i - 1] == entries[i]);
            }
        }
    }
}

/// The registry of deployed escrows, keyed by caller-chosen salts.
pub struct EscrowFactory {
    /// The code template every deployment instantiates. Immutable.
    pub escrow_dst_code_hash: Hash256,
    /// The append-only registry: one entry per used salt.
    pub deployed_escrows: Vec<(Hash256, AccountId)>,
}

impl EscrowFactory {
    /// The structural invariant: no two entries share a salt.
    pub open spec fn wf(self) -> bool {
        forall|i: int, j: int|
            0 <= i < j < self.deployed_escrows@.len() ==> self.deployed_escrows@[i].0@
                != self.deployed_escrows@[j].0@
    }

    /// Creates a factory for the given escrow code template, with an empty
    /// registry.
    pub fn new(escrow_dst_code_hash: Hash256) -> (f: EscrowFactory)
        ensures
            f.escrow_dst_code_hash == escrow_dst_code_hash,
            f.deployed_escrows@ == Seq::<(Hash256, AccountId)>::empty(),
            f.wf(),
    {
        EscrowFactory { escrow_dst_code_hash, deployed_escrows: Vec::new() }
    }

    /// Deploys a new escrow under `salt`.
    ///
    /// `instantiated` is the host's answer to the deterministic
    /// instantiation request keyed by the code template and `salt`, with
    /// `maker`, `taker`, `merkle_root`, `parts_count` and `expiry_timestamp`
    /// as the constructor arguments (bundled as
    /// [`EscrowDstConstructorArgs`]): the new escrow's address, or nothing
    /// when the host failed. A used salt is rejected whatever the host
    /// answered, an existing entry is never overwritten, and nothing is
    /// recorded unless the host deployed.
    pub fn deploy_escrow(
        &mut self,
        salt: Hash256,
        maker: AccountId,
        taker: AccountId,
        merkle_root: Hash256,
        parts_count: u32,
        expiry_timestamp: u64,
        instantiated: Option<AccountId>,
    ) -> (r: Result<EscrowDeployed, EscrowFactoryError>)
        requires
            old(self).wf(),
            parts_count > 0,
        ensures
            final(self).wf(),
            final(self).escrow_dst_code_hash == old(self).escrow_dst_code_hash,
            ({
                let pre = *old(self);
                if lookup_salt(pre.deployed_escrows@, salt@) is Some {
                    r == Err::<EscrowDeployed, EscrowFactoryError>(
                        EscrowFactoryError::EscrowAlreadyExists,
                    ) && *final(self) == pre
                } else {
                    match instantiated {
                        None => r == Err::<EscrowDeployed, EscrowFactoryError>(
                            EscrowFactoryError::DeploymentFailed,
                        ) && *final(self) == pre,
                        Some(escrow) => r == Ok::<EscrowDeployed, EscrowFactoryError>(
                            EscrowDeployed { salt, escrow, maker, taker },
                        ) && final(self).deployed_escrows@ == pre.deployed_escrows@.push(
                            (salt, escrow),
                        ),
                    }
                }
            }),
    {
        if self.get_deployed_escrow(salt).is_some() {
            return Err(EscrowFactoryError::EscrowAlreadyExists);
        }
        match instantiated {
            None => Err(EscrowFactoryError::DeploymentFailed),
            Some(escrow) => {
                proof {
                    lemma_lookup_none_no_match(self.deployed_escrows@, salt@);
                }
                self.deployed_escrows.push((salt, escrow));
                Ok(EscrowDeployed { salt, escrow, maker, taker })
            },
        }
    }

    /// Looks up the escrow deployed under `salt`, if any; a pure lookup.
    pub fn get_deployed_escrow(&self, salt: Hash256) -> (r: Option<AccountId>)
        ensures
            r == lookup_salt(self.deployed_escrows@, salt@),
    {
        let mut i: usize = 0;
        proof {
            assert(self.deployed_escrows@.skip(0) =~= self.deployed_escrows@);
        }
        while i < self.deployed_escrows.len()
            invariant
                0 <= i <= self.deployed_escrows@.len(),
                lookup_salt(self.deployed_escrows@.skip(i as int), salt@) == lookup_salt(
                    self.deployed_escrows@,
                    salt@,
                ),
            decreases self.deployed_escrows@.len() - i,
        {
            let entry = self.deployed_escrows[i];
            proof {
                let all = self.deployed_escrows@;
                assert(all.skip(i as int)[0] == all[i as int]);
                assert(all.skip(i as int).drop_first() =~= all.skip(i as int + 1));
            }
            if bytes32_eq(&entry.0.bytes, &salt.bytes) {
                proof {
                    let all = self.deployed_escrows@;
                    assert(lookup_salt(all.skip(i as int), salt@) == Some(all[i as int].1));
                }
                return Some(entry.1);
            }
            i = i + 1;
        }
        None
    }

    /// The code template deployments instantiate.
    pub fn get_escrow_dst_code_hash(&self) -> (r: Hash256)
        ensures
            r == self.escrow_dst_code_hash,
    {
        self.escrow_dst_code_hash
    }
}

} // verus!
