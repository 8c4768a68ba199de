//! The pool record and the registry that owns it.
//!
//! A pool names the two vaults that hold its reserves, the identity that may
//! move funds out of them, and its fee. The reserves themselves are the live
//! balances of the vaults and are never stored in the record.

use crate::account::AccountId;
use crate::auth::{require_role, Capability};
use crate::error::ErrorCode;
use crate::pricing::FEE_DENOMINATOR;
use vstd::prelude::*;

verus! {

/// What a pool record says.
pub struct PoolView {
    /// The account that holds the reserves of asset A.
    pub token_a_vault: AccountId,
    /// The account that holds the reserves of asset B.
    pub token_b_vault: AccountId,
    /// The identity that may authorize transfers out of the vaults.
    pub authority: AccountId,
    /// The fee on swap input, in parts per `FEE_DENOMINATOR`.
    pub fee: nat,
}

/// A pool record. Its fee is below `FEE_DENOMINATOR`, and nothing in it
/// changes once it is created.
#[derive(Clone, Copy, Debug, PartialEq, Eq)]
pub struct Pool {
    token_a_vault: AccountId,
    token_b_vault: AccountId,
    authority: AccountId,
    fee: u64,
}

impl View for Pool {
    type V = PoolView;

    closed spec fn view(&self) -> PoolView {
        PoolView {
            token_a_vault: self.token_a_vault,
            token_b_vault: self.token_b_vault,
            authority: self.authority,
            fee: self.fee as nat,
        }
    }
}

/// Why a pool with these parameters cannot be created, if it cannot: the
/// creator must hold the designated authority, and the fee must be below
/// `FEE_DENOMINATOR`.
pub open spec fn creation_error(
    fee_bps: u64,
    authority_id: AccountId,
    creator_capability: Capability,
) -> Option<ErrorCode> {
    if creator_capability.identity != authority_id {
        Some(ErrorCode::Unauthorized)
    } else if fee_bps >= FEE_DENOMINATOR {
        Some(ErrorCode::InvalidFee)
    } else {
        None
    }
}

impl Pool {
    #[verifier::type_invariant]
    spec fn fee_in_range(&self) -> bool {
        self.fee < FEE_DENOMINATOR
    }

    /// Rebuilds a record from its four stored values. A fee of
    /// `FEE_DENOMINATOR` or more is refused with `InvalidFee`.
    pub fn from_parts(
        token_a_vault: AccountId,
        token_b_vault: AccountId,
        authority: AccountId,
        fee: u64,
    ) -> (result: Result<Pool, ErrorCode>)
        ensures
            match result {
                Ok(pool) => {
                    &&& fee < FEE_DENOMINATOR
                    &&& pool@ == (PoolView { token_a_vault, token_b_vault, authority, fee: fee as nat })
                },
                Err(e) => fee >= FEE_DENOMINATOR && e == ErrorCode::InvalidFee,
            },
    {
        if fee >= FEE_DENOMINATOR {
            Err(ErrorCode::InvalidFee)
        } else {
            Ok(Pool { token_a_vault, token_b_vault, authority, fee })
        }
    }

    /// Builds the record of a new pool. The vault identities are taken as
    /// presented.
    pub fn create(
        fee_bps: u64,
        vault_a_id: AccountId,
        vault_b_id: AccountId,
        authority_id: AccountId,
        creator_capability: &Capability,
    ) -> (result: Result<Pool, ErrorCode>)
        ensures
            match result {
                Ok(pool) => {
                    &&& creation_error(fee_bps, authority_id, *creator_capability) is None
                    &&& pool@ == (PoolView {
                        token_a_vault: vault_a_id,
                        token_b_vault: vault_b_id,
                        authority: authority_id,
                        fee: fee_bps as nat,
                    })
                },
                Err(e) => creation_error(fee_bps, authority_id, *creator_capability) == Some(e),
            },
    {
        match require_role(&authority_id, creator_capability) {
            Err(e) => Err(e),
            Ok(()) => Pool::from_parts(vault_a_id, vault_b_id, authority_id, fee_bps),
        }
    }

    /// The account that holds the reserves of asset A.
    pub fn token_a_vault(&self) -> (id: AccountId)
        ensures
            id == self@.token_a_vault,
    {
        self.token_a_vault
    }

    /// The account that holds the reserves of asset B.
    pub fn token_b_vault(&self) -> (id: AccountId)
        ensures
            id == self@.token_b_vault,
    {
        self.token_b_vault
    }

    /// The identity that may authorize transfers out of the vaults.
    pub fn authority(&self) -> (id: AccountId)
        ensures
            id == self@.authority,
    {
        self.authority
    }

    /// The fee on swap input, in parts per `FEE_DENOMINATOR`.
    pub fn fee(&self) -> (fee: u64)
        ensures
            fee == self@.fee,
            fee < FEE_DENOMINATOR,
    {
        proof {
            use_type_invariant(self);
        }
        self.fee
    }
}

/// One record of the registry: a pool and where it lives.
struct Entry {
    location: AccountId,
    pool: Pool,
}

/// Owner of the pool records, each at a location of its own.
pub struct PoolRegistry {
    entries: Vec<Entry>,
}

impl View for PoolRegistry {
    type V = Map<AccountId, Pool>;

    closed spec fn view(&self) -> Map<AccountId, Pool> {
        Map::new(
            |location: AccountId| self.index_of(location) is Some,
            |location: AccountId| self.entries[self.index_of(location).unwrap()].pool,
        )
    }
}

/// Why a pool with these parameters cannot be created at `location`, if it
/// cannot: the parameters must be acceptable, and the location must be free.
pub open spec fn registration_error(
    records: Map<AccountId, Pool>,
    location: AccountId,
    fee_bps: u64,
    authority_id: AccountId,
    creator_capability: Capability,
) -> Option<ErrorCode> {
    if creation_error(fee_bps, authority_id, creator_capability) is Some {
        creation_error(fee_bps, authority_id, creator_capability)
    } else if records.contains_key(location) {
        Some(ErrorCode::AlreadyExists)
    } else {
        None
    }
}

impl PoolRegistry {
    #[verifier::type_invariant]
    spec fn locations_distinct(&self) -> bool {
        forall|i: int, j: int|
            0 <= i < j < self.entries.len() ==> (#[trigger] self.entries[i]).location != (
            #[trigger] self.entries[j]).location
    }

    /// Where the record at `location` is kept, if there is one.
    spec fn index_of(&self, location: AccountId) -> Option<int> {
        if exists|i: int| 0 <= i < self.entries.len() && (#[trigger] self.entries[i]).location == location {
            Some(
                choose|i: int|
                    0 <= i < self.entries.len() && (#[trigger] self.entries[i]).location == location,
            )
        } else {
            None
        }
    }

    /// A registry without records.
    pub fn new() -> (registry: PoolRegistry)
        ensures
            registry@ == Map::<AccountId, Pool>::empty(),
    {
        let registry = PoolRegistry { entries: Vec::new() };
        assert(registry@ =~= Map::<AccountId, Pool>::empty());
        registry
    }

    fn find(&self, location: &AccountId) -> (found: Option<usize>)
        ensures
            match found {
                Some(i) => self.index_of(*location) == Some(i as int),
                None => self.index_of(*location) is None,
            },
    {
        proof {
            use_type_invariant(self);
        }
        let mut i: usize = 0;
        while i < self.entries.len()
            invariant
                i <= self.entries.len(),
                self.locations_distinct(),
                forall|j: int| 0 <= j < i ==> (#[trigger] self.entries[j]).location != *location,
            decreases self.entries.len() - i,
        {
            if self.entries[i].location == *location {
                return Some(i);
            }
            i += 1;
        }
        None
    }

    /// Creates a pool and records it at `location`. On an error the registry
    /// is left as it was.
    pub fn create(
        &mut self,
        location: AccountId,
        fee_bps: u64,
        vault_a_id: AccountId,
        vault_b_id: AccountId,
        authority_id: AccountId,
        creator_capability: &Capability,
    ) -> (result: Result<Pool, ErrorCode>)
        ensures
            match result {
                Ok(pool) => {
                    &&& registration_error(
                        old(self)@,
                        location,
                        fee_bps,
                        authority_id,
                        *creator_capability,
                    ) is None
                    &&& pool@ == (PoolView {
                        token_a_vault: vault_a_id,
                        token_b_vault: vault_b_id,
                        authority: authority_id,
                        fee: fee_bps as nat,
                    })
                    &&& final(self)@ == old(self)@.insert(location, pool)
                },
                Err(e) => {
                    &&& registration_error(
                        old(self)@,
                        location,
                        fee_bps,
                        authority_id,
                        *creator_capability,
                    ) == Some(e)
                    &&& final(self)@ == old(self)@
                },
            },
    {
        let pool = match Pool::create(
            fee_bps,
            vault_a_id,
            vault_b_id,
            authority_id,
            creator_capability,
        ) {
            Err(e) => {
                return Err(e);
            },
            Ok(pool) => pool,
        };
        if self.find(&location).is_some() {
            return Err(ErrorCode::AlreadyExists);
        }
        proof {
            use_type_invariant(&*self);
        }
        let ghost before = *self;
        let mut entries: Vec<Entry> = Vec::new();
        std::mem::swap(&mut self.entries, &mut entries);
        entries.push(Entry { location, pool });
        proof {
            let after = PoolRegistry { entries };
            assert forall|i: int|
                0 <= i < before.entries.len() implies #[trigger] after.entries[i]
                == before.entries[i] by {}
            assert forall|other: AccountId| other != location implies after.index_of(other)
                == before.index_of(other) by {
                if before.index_of(other) is Some {
                    let i = before.index_of(other).unwrap();
                    assert(after.entries[i].location == other);
                }
                if after.index_of(other) is Some {
                    let i = after.index_of(other).unwrap();
                    assert(before.entries[i].location == other);
                }
            }
            assert(after.entries[before.entries.len() as int].location == location);
            assert(after.index_of(location) == Some(before.entries.len() as int));
            assert(after@ =~= before@.insert(location, pool));
        }
        self.entries = entries;
        Ok(pool)
    }

    /// Reads the pool recorded at `pool_ref`.
    pub fn get(&self, pool_ref: &AccountId) -> (result: Result<Pool, ErrorCode>)
        ensures
            result == (if self@.contains_key(*pool_ref) {
                Ok::<Pool, ErrorCode>(self@[*pool_ref])
            } else {
                Err::<Pool, ErrorCode>(ErrorCode::NotFound)
            }),
    {
        match self.find(pool_ref) {
            Some(i) => Ok(self.entries[i].pool),
            None => Err(ErrorCode::NotFound),
        }
    }
}

} // verus!
