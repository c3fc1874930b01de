//! The escrow state machine: a committed balance redeemed in pre-committed
//! parts with strictly rising indices, each unlocked by a secret proven
//! against the committed Merkle root, until expiry turns the balance into a
//! one-shot refund to the taker.

use vstd::prelude::*;
use crate::amounts::{compute_part_amount, part_amount};
use crate::host::HostContext;
use crate::merkle::{hashes_view, merkle_verify, verify_proof};
use crate::types::{AccountId, Hash256};

verus! {

/// Why a claim or refund was rejected.
#[derive(Clone, Copy, Debug, PartialEq, Eq, Structural)]
pub enum EscrowError {
    EscrowRefunded,
    EscrowExpired,
    EscrowNotExpired,
    EscrowAlreadyRefunded,
    InvalidPartIndex,
    PartAlreadyClaimed,
    InvalidMerkleProof,
    TransferFailed,
}

/// The record of a newly created escrow, for the host to emit.
pub struct DstCreated {
    pub maker: AccountId,
    pub taker: AccountId,
    pub merkle_root: Hash256,
    pub parts_count: u32,
    pub expiry_timestamp: u64,
}

/// The record of one successfully claimed part, for the host to emit; the
/// host owes `maker` a transfer of `amount`.
pub struct PartClaimed {
    pub maker: AccountId,
    pub taker: AccountId,
    pub part_index: u32,
    pub secret: Hash256,
    pub amount: u128,
}

/// The record of the terminal refund, for the host to emit; the host owes
/// `taker` a transfer of `amount`.
pub struct Refunded {
    pub taker: AccountId,
    pub amount: u128,
}

/// One escrowed swap: the commitment (root, part count, expiry), the parties,
/// and the progress (watermark of claimed parts, terminal refund flag).
pub struct EscrowDst {
    /// Credited on each successful claim.
    pub maker: AccountId,
    /// Credited on the refund.
    pub taker: AccountId,
    /// Commitment over the part secrets' leaf hashes.
    pub merkle_root: Hash256,
    /// Total number of claimable parts; always positive.
    pub parts_count: u32,
    /// Logical time at which claims stop and refund opens.
    pub expiry_timestamp: u64,
    /// Watermark: every part below it counts as claimed.
    pub parts_claimed: u32,
    /// Terminal flag; once set, no claim or refund ever succeeds again.
    pub refunded: bool,
}

impl EscrowDst {
    /// The structural invariant: at least one part, and the watermark never
    /// passes the part count.
    pub open spec fn wf(self) -> bool {
        self.parts_count > 0 && self.parts_claimed <= self.parts_count
    }

    /// The typed error a claim of `part_index` at time `now` is refused
    /// with, if any; the checks run in this order and the first failure
    /// wins.
    pub open spec fn claim_refusal(
        self,
        siblings: Seq<Seq<u8>>,
        secret: Seq<u8>,
        part_index: u32,
        now: u64,
    ) -> Option<EscrowError> {
        if self.refunded {
            Some(EscrowError::EscrowRefunded)
        } else if now >= self.expiry_timestamp {
            Some(EscrowError::EscrowExpired)
        } else if part_index >= self.parts_count {
            Some(EscrowError::InvalidPartIndex)
        } else if part_index < self.parts_claimed {
            Some(EscrowError::PartAlreadyClaimed)
        } else if !merkle_verify(siblings, secret, part_index as nat, self.merkle_root@) {
            Some(EscrowError::InvalidMerkleProof)
        } else {
            None
        }
    }

    /// The state after a successful claim of `part_index`: the watermark
    /// moves just past the claimed part; everything else is immutable.
    pub open spec fn after_claim(self, part_index: u32) -> EscrowDst {
        EscrowDst { parts_claimed: (part_index + 1) as u32, ..self }
    }

    /// The typed error a refund at time `now` is refused with, if any.
    pub open spec fn refund_refusal(self, now: u64) -> Option<EscrowError> {
        if self.refunded {
            Some(EscrowError::EscrowAlreadyRefunded)
        } else if now < self.expiry_timestamp {
            Some(EscrowError::EscrowNotExpired)
        } else {
            None
        }
    }

    /// The state once a refund passes its checks: terminally closed, whether
    /// or not the payout itself goes through.
    pub open spec fn after_refund(self) -> EscrowDst {
        EscrowDst { refunded: true, ..self }
    }

    /// Creates an escrow over `parts_count` parts and returns it with its
    /// creation record. An escrow with no parts is rejected here, at
    /// construction, never tolerated at claim time.
    pub fn new(
        maker: AccountId,
        taker: AccountId,
        merkle_root: Hash256,
        parts_count: u32,
        expiry_timestamp: u64,
    ) -> (r: (EscrowDst, DstCreated))
        requires
            parts_count > 0,
        ensures
            r.0 == (EscrowDst {
                maker,
                taker,
                merkle_root,
                parts_count,
                expiry_timestamp,
                parts_claimed: 0u32,
                refunded: false,
            }),
            r.0.wf(),
            r.1 == (DstCreated { maker, taker, merkle_root, parts_count, expiry_timestamp }),
    {
        let escrow = EscrowDst {
            maker,
            taker,
            merkle_root,
            parts_count,
            expiry_timestamp,
            parts_claimed: 0,
            refunded: false,
        };
        let created = DstCreated { maker, taker, merkle_root, parts_count, expiry_timestamp };
        (escrow, created)
    }

    /// Claims part `part_index` by revealing `secret` with a Merkle proof.
    ///
    /// The checks run in order, first failure wins: not refunded; not
    /// expired; index within the part count; index at or above the
    /// watermark; proof valid against the committed root. On success the
    /// part's amount of the live balance is owed to the maker and the
    /// watermark moves to `part_index + 1`; if the ledger refuses a positive
    /// payout, the call fails and nothing changes.
    pub fn claim_part(
        &mut self,
        merkle_proof: &Vec<Hash256>,
        secret: Hash256,
        part_index: u32,
        host: &HostContext,
    ) -> (r: Result<PartClaimed, EscrowError>)
        requires
            old(self).wf(),
        ensures
            final(self).wf(),
            ({
                let pre = *old(self);
                let refusal = pre.claim_refusal(
                    hashes_view(merkle_proof@),
                    secret@,
                    part_index,
                    host.block_timestamp,
                );
                let amount = part_amount(host.balance, pre.parts_count, part_index);
                match refusal {
                    Some(err) => r == Err::<PartClaimed, EscrowError>(err) && *final(self) == pre,
                    None => if amount > 0 && !host.transfer_accepted {
                        r == Err::<PartClaimed, EscrowError>(EscrowError::TransferFailed)
                            && *final(self) == pre
                    } else {
                        r == Ok::<PartClaimed, EscrowError>(PartClaimed {
                            maker: pre.maker,
                            taker: pre.taker,
                            part_index,
                            secret,
                            amount,
                        }) && *final(self) == pre.after_claim(part_index)
                    },
                }
            }),
    {
        if self.refunded {
            return Err(EscrowError::EscrowRefunded);
        }
        if host.block_timestamp >= self.expiry_timestamp {
            return Err(EscrowError::EscrowExpired);
        }
        if part_index >= self.parts_count {
            return Err(EscrowError::InvalidPartIndex);
        }
        if part_index < self.parts_claimed {
            return Err(EscrowError::PartAlreadyClaimed);
        }
        if !self.verify_merkle_proof(merkle_proof, &secret, part_index) {
            return Err(EscrowError::InvalidMerkleProof);
        }
        let amount = compute_part_amount(host.balance, self.parts_count, part_index);
        if amount > 0 && !host.transfer_accepted {
            return Err(EscrowError::TransferFailed);
        }
        self.parts_claimed = part_index + 1;
        Ok(PartClaimed { maker: self.maker, taker: self.taker, part_index, secret, amount })
    }

    /// Refunds the whole remaining balance to the taker once expired.
    ///
    /// The escrow is marked refunded before the payout is owed, so a refused
    /// payout still closes it terminally; the stuck balance must then be
    /// recovered out of band.
    pub fn refund(&mut self, host: &HostContext) -> (r: Result<Refunded, EscrowError>)
        requires
            old(self).wf(),
        ensures
            final(self).wf(),
            ({
                let pre = *old(self);
                match pre.refund_refusal(host.block_timestamp) {
                    Some(err) => r == Err::<Refunded, EscrowError>(err) && *final(self) == pre,
                    None => *final(self) == pre.after_refund() && if host.balance > 0
                        && !host.transfer_accepted {
                        r == Err::<Refunded, EscrowError>(EscrowError::TransferFailed)
                    } else {
                        r == Ok::<Refunded, EscrowError>(Refunded {
                            taker: pre.taker,
                            amount: host.balance,
                        })
                    },
                }
            }),
    {
        if self.refunded {
            return Err(EscrowError::EscrowAlreadyRefunded);
        }
        if host.block_timestamp < self.expiry_timestamp {
            return Err(EscrowError::EscrowNotExpired);
        }
        self.refunded = true;
        let remaining = host.balance;
        if remaining > 0 && !host.transfer_accepted {
            return Err(EscrowError::TransferFailed);
        }
        Ok(Refunded { taker: self.taker, amount: remaining })
    }

    /// Verifies a Merkle membership proof against this escrow's committed
    /// root.
    pub fn verify_merkle_proof(
        &self,
        merkle_proof: &Vec<Hash256>,
        secret: &Hash256,
        part_index: u32,
    ) -> (r: bool)
        ensures
            r == merkle_verify(
                hashes_view(merkle_proof@),
                secret@,
                part_index as nat,
                self.merkle_root@,
            ),
    {
        verify_proof(merkle_proof, secret, part_index, &self.merkle_root)
    }

    /// The identity credited on each claim.
    pub fn get_maker(&self) -> (r: AccountId)
        ensures
            r == self.maker,
    {
        self.maker
    }

    /// The identity credited on the refund.
    pub fn get_taker(&self) -> (r: AccountId)
        ensures
            r == self.taker,
    {
        self.taker
    }

    /// The committed Merkle root.
    pub fn get_merkle_root(&self) -> (r: Hash256)
        ensures
            r == self.merkle_root,
    {
        self.merkle_root
    }

    /// The total number of claimable parts.
    pub fn get_parts_count(&self) -> (r: u32)
        ensures
            r == self.parts_count,
    {
        self.parts_count
    }

    /// The expiry time.
    pub fn get_expiry_timestamp(&self) -> (r: u64)
        ensures
            r == self.expiry_timestamp,
    {
        self.expiry_timestamp
    }

    /// The claim watermark.
    pub fn get_parts_claimed(&self) -> (r: u32)
        ensures
            r == self.parts_claimed,
    {
        self.parts_claimed
    }

    /// Whether the escrow is terminally refunded.
    pub fn get_refunded(&self) -> (r: bool)
        ensures
            r == self.refunded,
    {
        self.refunded
    }

    /// The escrow's live balance, as the ledger reports it.
    pub fn get_balance(&self, host: &HostContext) -> (r: u128)
        ensures
            r == host.balance,
    {
        host.balance
    }
}

/// Claims arrive with rising indices: after a successful claim of `index1`,
/// a claim of a higher `index2` with a valid proof, made before expiry,
/// passes every check — exactly because `index2` is at or above the new
/// watermark — and moves the watermark to `index2 + 1`.
pub proof fn lemma_claims_in_order(
    pre: EscrowDst,
    siblings1: Seq<Seq<u8>>,
    secret1: Seq<u8>,
    index1: u32,
    now1: u64,
    siblings2: Seq<Seq<u8>>,
    secret2: Seq<u8>,
    index2: u32,
    now2: u64,
)
    requires
        pre.wf(),
        pre.claim_refusal(siblings1, secret1, index1, now1) is None,
        index1 < index2,
        index2 < pre.parts_count,
        now2 < pre.expiry_timestamp,
        merkle_verify(siblings2, secret2, index2 as nat, pre.merkle_root@),
    ensures
        pre.after_claim(index1).wf(),
        index2 >= pre.after_claim(index1).parts_claimed,
        pre.after_claim(index1).claim_refusal(siblings2, secret2, index2, now2) is None,
        pre.after_claim(index1).after_claim(index2).parts_claimed == index2 + 1,
{
}

/// Re-submitting a part below the watermark fails with `PartAlreadyClaimed`,
/// whatever proof and secret accompany it.
pub proof fn lemma_replayed_claim_rejected(
    escrow: EscrowDst,
    siblings: Seq<Seq<u8>>,
    secret: Seq<u8>,
    part_index: u32,
    now: u64,
)
    requires
        escrow.wf(),
        !escrow.refunded,
        now < escrow.expiry_timestamp,
        part_index < escrow.parts_claimed,
    ensures
        escrow.claim_refusal(siblings, secret, part_index, now) == Some(
            EscrowError::PartAlreadyClaimed,
        ),
{
}

/// Once a refund passes its checks, every claim fails with `EscrowRefunded`,
/// whatever its arguments — even when the refund's own payout was refused.
pub proof fn lemma_no_claim_after_refund(
    escrow: EscrowDst,
    now_refund: u64,
    siblings: Seq<Seq<u8>>,
    secret: Seq<u8>,
    part_index: u32,
    now_claim: u64,
)
    requires
        escrow.refund_refusal(now_refund) is None,
    ensures
        escrow.after_refund().claim_refusal(siblings, secret, part_index, now_claim) == Some(
            EscrowError::EscrowRefunded,
        ),
{
}

/// A second refund fails with `EscrowAlreadyRefunded`, at any time; by
/// `refund`'s contract, the failing call leaves the state unchanged.
pub proof fn lemma_second_refund_rejected(escrow: EscrowDst, now1: u64, now2: u64)
    requires
        escrow.refund_refusal(now1) is None,
    ensures
        escrow.after_refund().refund_refusal(now2) == Some(EscrowError::EscrowAlreadyRefunded),
{
}

} // verus!
