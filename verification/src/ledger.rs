//! The ledger as the engine sees it: the balances it reads, the instructions
//! it issues, and what carrying out an instruction does to the balances.
//!
//! The ledger itself lives outside this crate. An operation of the pool ends
//! in a list of [`LedgerOp`]s; whoever runs the operation carries them out in
//! order and as one unit: all of them, or none.

use crate::error::AmmError;
use vstd::bytes::{spec_u64_to_le_bytes, u64_to_le_bytes};
use vstd::prelude::*;

verus! {

/// One of the two traded assets.
#[derive(Clone, Copy, Debug, PartialEq, Eq, Structural)]
pub enum Asset {
    X,
    Y,
}

/// The balance of a token account, as read from the ledger.
#[derive(Clone, Copy, Debug, PartialEq, Eq, Structural)]
pub struct TokenAccount {
    pub amount: u64,
}

/// The outstanding supply of a token, as read from the ledger.
#[derive(Clone, Copy, Debug, PartialEq, Eq, Structural)]
pub struct Mint {
    pub supply: u64,
}

/// The capability to act as the pool: the values from which the pool's own
/// address is derived. An instruction that carries it is signed by the pool.
#[derive(Clone, Copy, Debug, PartialEq, Eq, Structural)]
pub struct PoolSigner {
    pub seed: u64,
    pub bump: u8,
}

impl PoolSigner {
    /// The prefix of the pool's seeds: the bytes of the word `config`.
    pub open spec fn prefix() -> Seq<u8> {
        seq![99u8, 111u8, 110u8, 102u8, 105u8, 103u8]
    }

    /// The seeds of [`PoolSigner::seeds`], each as the sequence of its bytes.
    pub open spec fn seeds_spec(self) -> Seq<Seq<u8>> {
        seq![Self::prefix(), spec_u64_to_le_bytes(self.seed), seq![self.bump]]
    }

    /// The seeds under which the pool's address was derived, and with which
    /// the pool signs: the word `config`, the pool's seed in little-endian
    /// bytes, and the marker of the address.
    pub fn seeds(&self) -> (seeds: Vec<Vec<u8>>)
        ensures
            seeds@.len() == self.seeds_spec().len(),
            forall|i: int| 0 <= i < seeds@.len() ==> seeds@[i]@ == self.seeds_spec()[i],
    {
        let mut prefix: Vec<u8> = Vec::new();
        prefix.push(99);
        prefix.push(111);
        prefix.push(110);
        prefix.push(102);
        prefix.push(105);
        prefix.push(103);
        let number: Vec<u8> = u64_to_le_bytes(self.seed);
        let mut marker: Vec<u8> = Vec::new();
        marker.push(self.bump);
        assert(prefix@ == Self::prefix());
        assert(marker@ == seq![self.bump]);
        let mut seeds: Vec<Vec<u8>> = Vec::new();
        seeds.push(prefix);
        seeds.push(number);
        seeds.push(marker);
        seeds
    }
}

/// An instruction to the ledger.
#[derive(Clone, Copy, Debug, PartialEq, Eq, Structural)]
pub enum LedgerOp {
    /// Move `amount` of `asset` from the caller's account into the pool's
    /// vault. The caller authorizes it.
    TransferIn { asset: Asset, amount: u64 },
    /// Move `amount` of `asset` from the pool's vault to the caller's
    /// account. The pool signs it.
    TransferOut { asset: Asset, amount: u64, signer: PoolSigner },
    /// Mint `amount` LP units to the caller. The pool signs it.
    MintLp { amount: u64, signer: PoolSigner },
    /// Burn `amount` LP units of the caller. The caller authorizes it.
    BurnLp { amount: u64 },
}

impl Asset {
    /// The asset that a direction flag names: X where it is set, else Y.
    pub open spec fn pick(is_x: bool) -> Asset {
        if is_x {
            Asset::X
        } else {
            Asset::Y
        }
    }

    /// The asset that a direction flag names: X where it is set, else Y.
    pub fn select(is_x: bool) -> (asset: Asset)
        ensures
            asset == Asset::pick(is_x),
    {
        if is_x {
            Asset::X
        } else {
            Asset::Y
        }
    }
}

/// What an operation answers: the instructions to carry out, seen as a
/// sequence, or the reason for its refusal.
pub open spec fn plan_view(r: Result<Vec<LedgerOp>, AmmError>) -> Result<
    Seq<LedgerOp>,
    AmmError,
> {
    match r {
        Ok(ops) => Ok(ops@),
        Err(e) => Err(e),
    }
}

/// The three balances that the operations of a pool change.
#[derive(Clone, Copy, Debug, PartialEq, Eq, Structural)]
pub struct Balances {
    pub vault_x: u64,
    pub vault_y: u64,
    pub lp_supply: u64,
}

impl Balances {
    /// LP units are outstanding whenever a vault holds anything.
    pub open spec fn wf(self) -> bool {
        self.lp_supply == 0 ==> self.vault_x == 0 && self.vault_y == 0
    }

    /// The product of the two reserves.
    pub open spec fn product(self) -> nat {
        (self.vault_x * self.vault_y) as nat
    }

    /// The balances after `op`, or `None` where the ledger refuses it: a
    /// balance cannot fall below zero nor rise above what a `u64` holds.
    pub open spec fn apply_spec(self, op: LedgerOp) -> Option<Balances> {
        match op {
            LedgerOp::TransferIn { asset: Asset::X, amount } => if self.vault_x + amount
                <= u64::MAX {
                Some(Balances { vault_x: (self.vault_x + amount) as u64, ..self })
            } else {
                None
            },
            LedgerOp::TransferIn { asset: Asset::Y, amount } => if self.vault_y + amount
                <= u64::MAX {
                Some(Balances { vault_y: (self.vault_y + amount) as u64, ..self })
            } else {
                None
            },
            LedgerOp::TransferOut { asset: Asset::X, amount, .. } => if amount <= self.vault_x {
                Some(Balances { vault_x: (self.vault_x - amount) as u64, ..self })
            } else {
                None
            },
            LedgerOp::TransferOut { asset: Asset::Y, amount, .. } => if amount <= self.vault_y {
                Some(Balances { vault_y: (self.vault_y - amount) as u64, ..self })
            } else {
                None
            },
            LedgerOp::MintLp { amount, .. } => if self.lp_supply + amount <= u64::MAX {
                Some(Balances { lp_supply: (self.lp_supply + amount) as u64, ..self })
            } else {
                None
            },
            LedgerOp::BurnLp { amount } => if amount <= self.lp_supply {
                Some(Balances { lp_supply: (self.lp_supply - amount) as u64, ..self })
            } else {
                None
            },
        }
    }

    /// The balances after all of `ops`, in order, or `None` where the ledger
    /// refuses one of them: then none takes effect.
    pub open spec fn settle_spec(self, ops: Seq<LedgerOp>) -> Option<Balances>
        decreases ops.len(),
    {
        if ops.len() == 0 {
            Some(self)
        } else {
            match self.apply_spec(ops[0]) {
                Some(next) => next.settle_spec(ops.subrange(1, ops.len() as int)),
                None => None,
            }
        }
    }

    /// The balances once an operation has ended. A refused operation leaves
    /// them as they were, and so does a plan that the ledger refuses.
    pub open spec fn after(self, outcome: Result<Seq<LedgerOp>, AmmError>) -> Balances {
        match outcome {
            Ok(ops) => match self.settle_spec(ops) {
                Some(balances) => balances,
                None => self,
            },
            Err(_) => self,
        }
    }

    /// Two instructions settle one after the other.
    pub proof fn lemma_settle_two(self, first: LedgerOp, second: LedgerOp)
        ensures
            self.settle_spec(seq![first, second]) == match self.apply_spec(first) {
                Some(next) => next.apply_spec(second),
                None => None,
            },
    {
        let ops = seq![first, second];
        assert(ops.subrange(1, 2) == seq![second]);
        assert(seq![second].subrange(1, 1) == Seq::<LedgerOp>::empty());
        reveal_with_fuel(Balances::settle_spec, 3);
    }

    /// Three instructions settle one after the other.
    pub proof fn lemma_settle_three(self, first: LedgerOp, second: LedgerOp, third: LedgerOp)
        ensures
            self.settle_spec(seq![first, second, third]) == match self.apply_spec(first) {
                Some(next) => match next.apply_spec(second) {
                    Some(last) => last.apply_spec(third),
                    None => None,
                },
                None => None,
            },
    {
        let ops = seq![first, second, third];
        assert(ops.subrange(1, 3) == seq![second, third]);
        match self.apply_spec(first) {
            Some(next) => {
                next.lemma_settle_two(second, third);
            },
            None => {},
        }
    }

    /// Carries out one instruction on these balances.
    pub fn apply(&self, op: &LedgerOp) -> (r: Option<Balances>)
        ensures
            r == self.apply_spec(*op),
    {
        match *op {
            LedgerOp::TransferIn { asset, amount } => match asset {
                Asset::X => match self.vault_x.checked_add(amount) {
                    Some(v) => Some(
                        Balances { vault_x: v, vault_y: self.vault_y, lp_supply: self.lp_supply },
                    ),
                    None => None,
                },
                Asset::Y => match self.vault_y.checked_add(amount) {
                    Some(v) => Some(
                        Balances { vault_x: self.vault_x, vault_y: v, lp_supply: self.lp_supply },
                    ),
                    None => None,
                },
            },
            LedgerOp::TransferOut { asset, amount, signer: _ } => match asset {
                Asset::X => match self.vault_x.checked_sub(amount) {
                    Some(v) => Some(
                        Balances { vault_x: v, vault_y: self.vault_y, lp_supply: self.lp_supply },
                    ),
                    None => None,
                },
                Asset::Y => match self.vault_y.checked_sub(amount) {
                    Some(v) => Some(
                        Balances { vault_x: self.vault_x, vault_y: v, lp_supply: self.lp_supply },
                    ),
                    None => None,
                },
            },
            LedgerOp::MintLp { amount, signer: _ } => match self.lp_supply.checked_add(amount) {
                Some(v) => Some(
                    Balances { vault_x: self.vault_x, vault_y: self.vault_y, lp_supply: v },
                ),
                None => None,
            },
            LedgerOp::BurnLp { amount } => match self.lp_supply.checked_sub(amount) {
                Some(v) => Some(
                    Balances { vault_x: self.vault_x, vault_y: self.vault_y, lp_supply: v },
                ),
                None => None,
            },
        }
    }

    /// Carries out `ops` in order, as one unit.
    pub fn settle(&self, ops: &Vec<LedgerOp>) -> (r: Option<Balances>)
        ensures
            r == self.settle_spec(ops@),
    {
        let mut current: Balances = *self;
        let mut i: usize = 0;
        assert(ops@.subrange(0, ops.len() as int) == ops@);
        while i < ops.len()
            invariant
                i <= ops.len(),
                self.settle_spec(ops@) == current.settle_spec(
                    ops@.subrange(i as int, ops.len() as int),
                ),
            decreases ops.len() - i,
        {
            let ghost rest = ops@.subrange(i as int, ops.len() as int);
            assert(rest[0] == ops@[i as int]);
            assert(rest.subrange(1, rest.len() as int) == ops@.subrange(i + 1, ops.len() as int));
            match current.apply(&ops[i]) {
                Some(next) => {
                    current = next;
                },
                None => {
                    return None;
                },
            }
            i = i + 1;
        }
        Some(current)
    }
}

} // verus!
