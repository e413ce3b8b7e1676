//! The configuration store: a single-slot record holding the owner identity.
//!
//! The slot is written exactly once, at initialization, and is read-only
//! afterwards; the write-once discipline is enforced by the
//! `AlreadyInitialized` contract rather than by language-level immutability.

use vstd::prelude::*;

use crate::error::ContractError;

verus! {

/// The singleton configuration record: the one identity authorized to
/// trigger a distribution.
#[derive(Clone, Debug, PartialEq)]
pub struct Config {
    pub owner: String,
}

/// The full behaviour of initialization against a store whose view was
/// `old_store` and is `new_store` afterwards: an empty slot is filled with a
/// configuration naming `owner`; a filled slot is left exactly as it was and
/// the call fails with `AlreadyInitialized`.
pub open spec fn initialize_post(
    old_store: Option<Seq<char>>,
    new_store: Option<Seq<char>>,
    owner: Seq<char>,
    r: Result<Config, ContractError>,
) -> bool {
    match old_store {
        None => new_store == Some(owner) && (r matches Ok(c) && c.owner@ == owner),
        Some(_) => new_store == old_store && r == Err::<Config, ContractError>(
            ContractError::AlreadyInitialized,
        ),
    }
}

/// A single-slot store for the `Config` record. The view of a store is
/// `None` while it is empty and `Some(owner)` once initialization has
/// filled the slot.
pub struct ConfigStore {
    slot: Option<Config>,
}

impl View for ConfigStore {
    type V = Option<Seq<char>>;

    closed spec fn view(&self) -> Option<Seq<char>> {
        match self.slot {
            Some(c) => Some(c.owner@),
            None => None,
        }
    }
}

impl ConfigStore {
    /// An empty store, as the module finds it before initialization.
    pub fn new() -> (s: Self)
        ensures
            s@ is None,
    {
        ConfigStore { slot: None }
    }

    /// Fills the slot with a configuration naming `owner`. Fails with
    /// `AlreadyInitialized`, leaving the stored owner unchanged, if the
    /// slot is already filled.
    pub fn initialize(&mut self, owner: String) -> (r: Result<Config, ContractError>)
        ensures
            initialize_post(old(self)@, final(self)@, owner@, r),
    {
        match &self.slot {
            Some(_) => Err(ContractError::AlreadyInitialized),
            None => {
                let copy = Config { owner: owner.clone() };
                self.slot = Some(Config { owner });
                Ok(copy)
            },
        }
    }

    /// Reads the stored configuration. Fails with `Uninitialized` while the
    /// slot is empty.
    pub fn load(&self) -> (r: Result<Config, ContractError>)
        ensures
            self@ matches Some(owner) ==> (r matches Ok(c) && c.owner@ == owner),
            self@ is None ==> r == Err::<Config, ContractError>(ContractError::Uninitialized),
    {
        match &self.slot {
            Some(c) => Ok(Config { owner: c.owner.clone() }),
            None => Err(ContractError::Uninitialized),
        }
    }
}

/// Initialization happens at most once: after a first initialization has
/// filled the slot with `owner1`, a second attempt — whatever identity it
/// names — fails with `AlreadyInitialized` and the stored owner is still
/// `owner1`.
pub proof fn lemma_initialize_once(
    store1: Option<Seq<char>>,
    store2: Option<Seq<char>>,
    owner1: Seq<char>,
    owner2: Seq<char>,
    r1: Result<Config, ContractError>,
    r2: Result<Config, ContractError>,
)
    requires
        initialize_post(None, store1, owner1, r1),
        initialize_post(store1, store2, owner2, r2),
    ensures
        r2 == Err::<Config, ContractError>(ContractError::AlreadyInitialized),
        store2 == Some(owner1),
{
}

} // verus!
