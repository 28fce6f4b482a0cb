//! What the vault asks of the funds ledger: transfers, each naming an
//! amount, the accounts it moves between and who authorizes it.

use vstd::prelude::*;
use crate::key::AccountKey;

verus! {

/// Who authorizes a transfer.
#[derive(Clone, Copy, Debug, PartialEq, Eq)]
pub enum Authority {
    /// The owner, who signs the operation.
    Owner(AccountKey),
    /// The custody authority of a vault, which the ledger derives from the
    /// custody tag, the owner of the vault and the derivation seed.
    Custody { owner: AccountKey, bump: u8 },
}

/// One movement of funds asked of the ledger. The ledger applies it in
/// full or rejects it without effect.
#[derive(Clone, Copy, Debug, PartialEq, Eq)]
pub struct TransferOrder {
    pub amount: u64,
    pub from: AccountKey,
    pub to: AccountKey,
    pub authority: Authority,
}

/// What the ledger answered to a transfer order.
#[derive(Clone, Copy, Debug, PartialEq, Eq, Structural)]
pub enum TransferOutcome {
    Applied,
    Rejected,
}

/// The tag that starts the seeds of every custody authority: the bytes
/// of `vault`.
pub open spec fn custody_tag() -> Seq<u8> {
    seq![118u8, 97u8, 117u8, 108u8, 116u8]
}

impl Authority {
    /// The seeds from which the ledger derives the authority: none for an
    /// owner, who signs in person; for a custody authority the tag, the
    /// 32 bytes of the owner and the one byte of the derivation seed.
    pub open spec fn seeds(&self) -> Seq<Seq<u8>> {
        match *self {
            Authority::Owner(_) => Seq::empty(),
            Authority::Custody { owner, bump } => seq![custody_tag(), owner.bytes@, seq![bump]],
        }
    }

    /// The seeds to present to the ledger with a transfer under this
    /// authority.
    pub fn signer_seeds(&self) -> (seeds: Vec<Vec<u8>>)
        ensures
            seeds.deep_view() == self.seeds(),
    {
        let mut seeds: Vec<Vec<u8>> = Vec::new();
        match self {
            Authority::Owner(_) => {},
            Authority::Custody { owner, bump } => {
                let mut tag: Vec<u8> = Vec::new();
                tag.push(118u8);
                tag.push(97u8);
                tag.push(117u8);
                tag.push(108u8);
                tag.push(116u8);
                let mut key: Vec<u8> = Vec::new();
                let mut i: usize = 0;
                while i < 32
                    invariant
                        i <= 32,
                        key@ == owner.bytes@.take(i as int),
                    decreases 32 - i,
                {
                    key.push(owner.bytes[i]);
                    i += 1;
                }
                let mut seed: Vec<u8> = Vec::new();
                seed.push(*bump);
                seeds.push(tag);
                seeds.push(key);
                seeds.push(seed);
                assert(seeds.deep_view() =~~= self.seeds());
            },
        }
        assert(seeds.deep_view() =~~= self.seeds());
        seeds
    }
}

} // verus!
