//! Builders for account storage, account identifiers and whole accounts.

use crate::ledger::{
    code_commitment, commitment_of, searched_seed, compile_account_code, derive_account_id, derived_id,
    draw_seed_bytes, find_account_seed, new_account_storage, new_asset_vault, new_secret_key,
    public_key_of, public_key_word, set_storage_item, slots_root, storage_item, storage_items_ok,
    storage_leaves, storage_root, storage_slots, storage_slots_for,
};
use crate::types::{
    account_type_of, felt_word, items_by_index, storage_type_of, AccountId, AccountStorageType, AccountType,
    distinct_indices, lemma_item_order_irrelevant, SlotItem, SlotKind, Word, EMPTY_WORD,
    SLOT_LAYOUT_COMMITMENT_INDEX,
};
use miden_objects::accounts::{AccountCode, AccountStorage, StorageMap};
use miden_objects::assembly::Assembler;
use miden_objects::assets::{Asset, AssetVault};
use miden_objects::crypto::dsa::rpo_falcon512::SecretKey;
use rand_chacha::ChaCha20Rng;
use std::collections::BTreeMap;
use vstd::prelude::*;

verus! {

/// Account code that a builder compiles unless it is given other code.
pub const DEFAULT_ACCOUNT_CODE: &'static str = "
    export.::miden::contracts::wallets::basic::receive_asset
    export.::miden::contracts::wallets::basic::create_note
    export.::miden::contracts::wallets::basic::move_asset_to_note
    export.::miden::contracts::auth::basic::auth_tx_rpo_falcon512
";

/// Why building an account failed.
#[derive(Debug)]
pub enum AccountBuilderError {
    AccountError(miden_objects::AccountError),
    AssetVaultError(miden_objects::AssetVaultError),
    MerkleError(miden_objects::crypto::merkle::MerkleError),
    /// The identifier derived from the seed carries another account type than configured.
    SeedAndAccountTypeMismatch,
    /// The identifier derived from the seed carries another storage type than configured.
    SeedAndOnChainMismatch,
}

/// An assembled account: identifier, vault, storage, code and nonce.
#[derive(Debug)]
pub struct Account {
    pub id: AccountId,
    pub vault: AssetVault,
    pub storage: AccountStorage,
    pub code: AccountCode,
    pub nonce: u64,
}

impl Account {
    /// The value held by the storage slot at `index`.
    pub fn storage_item(&self, index: u8) -> (r: Word)
        ensures
            storage_slots(self.storage).contains_key(index) ==> r@ == storage_slots(self.storage)[index],
    {
        storage_item(&self.storage, index)
    }

    /// The commitment to the account's storage.
    pub fn storage_root(&self) -> (r: Word)
        ensures
            r@ == slots_root(storage_slots(self.storage)),
    {
        storage_root(&self.storage)
    }
}

/// What checking a derived identifier against the configured tags gives: the derivation's own
/// failure, a type mismatch, a storage mismatch, or the identifier.
pub open spec fn seed_check_outcome(
    derived: Option<u64>,
    account_type: AccountType,
    storage_type: AccountStorageType,
    r: Result<AccountId, AccountBuilderError>,
) -> bool {
    match derived {
        None => r matches Err(AccountBuilderError::AccountError(_)),
        Some(v) => if account_type_of(v) != account_type {
            r matches Err(AccountBuilderError::SeedAndAccountTypeMismatch)
        } else if storage_type_of(v) != storage_type {
            r matches Err(AccountBuilderError::SeedAndOnChainMismatch)
        } else {
            r == Ok::<AccountId, AccountBuilderError>(AccountId { value: v })
        },
    }
}

/// Checks an identifier derived from a seed against the configured account and storage type.
pub fn check_account_id(
    derived: Result<AccountId, miden_objects::AccountError>,
    account_type: AccountType,
    storage_type: AccountStorageType,
) -> (r: Result<AccountId, AccountBuilderError>)
    ensures
        seed_check_outcome(
            match derived { Ok(id) => Some(id.value), Err(_) => None },
            account_type,
            storage_type,
            r,
        ),
        derived matches Err(e) ==> r == Err::<AccountId, AccountBuilderError>(AccountBuilderError::AccountError(e)),
{
    match derived {
        Err(e) => Err(AccountBuilderError::AccountError(e)),
        Ok(id) => {
            if id.account_type() != account_type {
                Err(AccountBuilderError::SeedAndAccountTypeMismatch)
            } else if id.storage_type() != storage_type {
                Err(AccountBuilderError::SeedAndOnChainMismatch)
            } else {
                Ok(id)
            }
        },
    }
}

/// Derives the identifier for `seed` and checks it against the configured tags.
pub fn account_id_for_seed(
    seed: Word,
    code_commitment: Word,
    storage_root: Word,
    account_type: AccountType,
    storage_type: AccountStorageType,
) -> (r: Result<AccountId, AccountBuilderError>)
    ensures
        seed_check_outcome(derived_id(seed@, code_commitment@, storage_root@), account_type, storage_type, r),
{
    check_account_id(derive_account_id(seed, code_commitment, storage_root), account_type, storage_type)
}

/// Deriving and checking an identifier is deterministic: any two outcomes for the same seed,
/// code commitment, storage root and configuration are the same identifier or the same kind of
/// error.
pub proof fn lemma_seed_check_deterministic(
    seed: Seq<u64>,
    code_commitment: Seq<u64>,
    storage_root: Seq<u64>,
    account_type: AccountType,
    storage_type: AccountStorageType,
    a: Result<AccountId, AccountBuilderError>,
    b: Result<AccountId, AccountBuilderError>,
)
    requires
        seed_check_outcome(derived_id(seed, code_commitment, storage_root), account_type, storage_type, a),
        seed_check_outcome(derived_id(seed, code_commitment, storage_root), account_type, storage_type, b),
    ensures
        a is Ok <==> b is Ok,
        a is Ok ==> a == b,
        a matches Err(AccountBuilderError::SeedAndAccountTypeMismatch) <==> b matches Err(AccountBuilderError::SeedAndAccountTypeMismatch),
        a matches Err(AccountBuilderError::SeedAndOnChainMismatch) <==> b matches Err(AccountBuilderError::SeedAndOnChainMismatch),
{
}

/// A seed that verifies is never accepted with the wrong type: whenever the identifier derived
/// from it carries another account type than configured, the check reports the type mismatch.
pub proof fn lemma_type_mismatch_rejected(
    seed: Seq<u64>,
    code_commitment: Seq<u64>,
    storage_root: Seq<u64>,
    account_type: AccountType,
    storage_type: AccountStorageType,
    r: Result<AccountId, AccountBuilderError>,
)
    requires
        seed_check_outcome(derived_id(seed, code_commitment, storage_root), account_type, storage_type, r),
        derived_id(seed, code_commitment, storage_root) matches Some(v) && account_type_of(v) != account_type,
    ensures
        r matches Err(AccountBuilderError::SeedAndAccountTypeMismatch),
{
}

/// The values that a storage built from `items` holds at the items' indices.
pub open spec fn holds_items(slots: Map<u8, Seq<u64>>, items: Seq<SlotItem>) -> bool {
    forall|i: int| 0 <= i < items.len() ==> slots.contains_key(#[trigger] items[i].index)
        && slots[items[i].index] == felt_word(items[i].value)
}

/// Builder for an `AccountStorage`; it can be configured and used several times.
#[derive(Debug, Clone)]
pub struct AccountStorageBuilder {
    pub items: Vec<SlotItem>,
    pub maps: BTreeMap<u8, StorageMap>,
}

impl AccountStorageBuilder {
    pub fn new() -> (r: AccountStorageBuilder)
        ensures
            r.items@ == Seq::<SlotItem>::empty(),
            r.maps@ == Map::<u8, StorageMap>::empty(),
    {
        AccountStorageBuilder { items: Vec::new(), maps: BTreeMap::new() }
    }

    pub fn add_item(&mut self, item: SlotItem)
        ensures
            final(self).items@ == old(self).items@.push(item),
            final(self).maps@ == old(self).maps@,
    {
        self.items.push(item);
    }

    pub fn add_items(&mut self, items: Vec<SlotItem>)
        ensures
            final(self).items@ == old(self).items@ + items@,
            final(self).maps@ == old(self).maps@,
    {
        let mut k: usize = 0;
        while k < items.len()
            invariant
                0 <= k <= items@.len(),
                self.items@ == old(self).items@ + items@.subrange(0, k as int),
                self.maps@ == old(self).maps@,
            decreases items@.len() - k,
        {
            self.add_item(items[k]);
            proof {
                assert(items@.subrange(0, k as int + 1) == items@.subrange(0, k as int).push(items@[k as int]));
            }
            k = k + 1;
        }
        proof {
            assert(items@.subrange(0, items@.len() as int) == items@);
        }
    }

    pub fn add_map(&mut self, index: u8, map: StorageMap)
        ensures
            final(self).items@ == old(self).items@,
            final(self).maps@ == old(self).maps@.insert(index, map),
    {
        self.maps.insert(index, map);
    }

    /// Builds the storage from the accumulated items and maps; the builder is left as it was.
    /// It succeeds exactly when the items and maps are consistent (`storage_items_ok`).
    pub fn build(&self) -> (r: Result<AccountStorage, AccountBuilderError>)
        ensures
            r is Ok <==> storage_items_ok(self.items@, self.maps@.dom()),
            r matches Ok(s) ==> holds_items(storage_slots(s), self.items@),
            r matches Ok(s) ==> storage_slots(s) == storage_slots_for(items_by_index(self.items@)),
            r matches Ok(s) ==> forall|k: u8| k != SLOT_LAYOUT_COMMITMENT_INDEX
                && !(exists|i: int| 0 <= i < self.items@.len() && #[trigger] self.items@[i].index == k)
                ==> #[trigger] storage_slots(s).contains_key(k) && storage_slots(s)[k] == EMPTY_WORD@,
            r is Err ==> r matches Err(AccountBuilderError::AccountError(_)),
    {
        match new_account_storage(&self.items, &self.maps) {
            Ok(s) => Ok(s),
            Err(e) => Err(AccountBuilderError::AccountError(e)),
        }
    }
}

/// An identifier that `seed` derives for `code_commitment` and `storage_root`, carrying the
/// configured tags.
pub open spec fn id_fits(
    id: AccountId,
    seed: Word,
    code_commitment: Seq<u64>,
    storage_root: Seq<u64>,
    account_type: AccountType,
    storage_type: AccountStorageType,
) -> bool {
    &&& derived_id(seed@, code_commitment, storage_root) == Some(id.value)
    &&& account_type_of(id.value) == account_type
    &&& storage_type_of(id.value) == storage_type
}

/// Searches a seed for compiled `code` from the random bytes `init_seed`; a compile error is
/// passed on, and otherwise the search always succeeds, returning the seed with the code's
/// commitment.
pub fn seed_for_code(
    code: Result<AccountCode, miden_objects::AccountError>,
    init_seed: [u8; 32],
    account_type: AccountType,
    storage_type: AccountStorageType,
    storage_root: Word,
) -> (r: Result<(Word, Word), AccountBuilderError>)
    ensures
        match code {
            Err(e) => r == Err::<(Word, Word), AccountBuilderError>(AccountBuilderError::AccountError(e)),
            Ok(c) => {
                &&& r is Ok
                &&& r->Ok_0.1@ == commitment_of(c)
                &&& r->Ok_0.0@ == searched_seed(init_seed@, account_type, storage_type, commitment_of(c), storage_root@)
                &&& derived_id(r->Ok_0.0@, r->Ok_0.1@, storage_root@) is Some
                &&& account_type_of(derived_id(r->Ok_0.0@, r->Ok_0.1@, storage_root@)->Some_0) == account_type
                &&& storage_type_of(derived_id(r->Ok_0.0@, r->Ok_0.1@, storage_root@)->Some_0) == storage_type
            },
        },
{
    let code = match code {
        Ok(c) => c,
        Err(e) => return Err(AccountBuilderError::AccountError(e)),
    };
    let commitment = code_commitment(&code);
    match find_account_seed(init_seed, account_type, storage_type, commitment, storage_root) {
        Ok(seed) => Ok((seed, commitment)),
        Err(e) => Err(AccountBuilderError::AccountError(e)),
    }
}

/// Returns a seed found from the random bytes `init_seed`, together with the commitment of
/// `code` compiled by `assembler`; the seed's identifier carries the requested tags. Only a
/// compile error can make it fail.
pub fn account_id_build_details(
    init_seed: [u8; 32],
    code: &str,
    account_type: AccountType,
    storage_type: AccountStorageType,
    storage_root: Word,
    assembler: Assembler,
) -> (r: Result<(Word, Word), AccountBuilderError>)
    ensures
        r matches Ok((seed, commitment)) ==> derived_id(seed@, commitment@, storage_root@) matches Some(v)
            && account_type_of(v) == account_type && storage_type_of(v) == storage_type,
        r is Err ==> r matches Err(AccountBuilderError::AccountError(_)),
{
    seed_for_code(compile_account_code(code, assembler), init_seed, account_type, storage_type, storage_root)
}

/// Searches a seed for compiled `code` from the random bytes `init_seed` and derives its
/// identifier; a compile error is passed on, and otherwise it always succeeds.
pub fn id_and_seed_for_code(
    code: Result<AccountCode, miden_objects::AccountError>,
    init_seed: [u8; 32],
    storage_root: Word,
    account_type: AccountType,
    storage_type: AccountStorageType,
) -> (r: Result<(AccountId, Word), AccountBuilderError>)
    ensures
        match code {
            Err(e) => r == Err::<(AccountId, Word), AccountBuilderError>(AccountBuilderError::AccountError(e)),
            Ok(c) => {
                &&& r is Ok
                &&& r->Ok_0.1@ == searched_seed(init_seed@, account_type, storage_type, commitment_of(c), storage_root@)
                &&& derived_id(r->Ok_0.1@, commitment_of(c), storage_root@) == Some(r->Ok_0.0.value)
                &&& account_type_of(r->Ok_0.0.value) == account_type
                &&& storage_type_of(r->Ok_0.0.value) == storage_type
            },
        },
{
    let code = match code {
        Ok(c) => c,
        Err(e) => return Err(AccountBuilderError::AccountError(e)),
    };
    let commitment = code_commitment(&code);
    let seed = match find_account_seed(init_seed, account_type, storage_type, commitment, storage_root) {
        Ok(seed) => seed,
        Err(e) => return Err(AccountBuilderError::AccountError(e)),
    };
    match derive_account_id(seed, commitment, storage_root) {
        Ok(id) => Ok((id, seed)),
        Err(e) => Err(AccountBuilderError::AccountError(e)),
    }
}

/// Derives the identifier for `seed` from compiled `code` and checks its tags; a compile error
/// is passed on untouched.
pub fn id_for_code(
    code: Result<AccountCode, miden_objects::AccountError>,
    seed: Word,
    storage_root: Word,
    account_type: AccountType,
    storage_type: AccountStorageType,
) -> (r: Result<AccountId, AccountBuilderError>)
    ensures
        match code {
            Err(e) => r == Err::<AccountId, AccountBuilderError>(AccountBuilderError::AccountError(e)),
            Ok(c) => seed_check_outcome(derived_id(seed@, commitment_of(c), storage_root@), account_type, storage_type, r),
        },
{
    let code = match code {
        Ok(c) => c,
        Err(e) => return Err(AccountBuilderError::AccountError(e)),
    };
    let commitment = code_commitment(&code);
    account_id_for_seed(seed, commitment, storage_root, account_type, storage_type)
}

/// Builder for an `AccountId`; it can be configured and used several times.
#[derive(Debug, Clone)]
pub struct AccountIdBuilder {
    pub account_type: AccountType,
    pub storage_type: AccountStorageType,
    pub code: String,
    pub storage_root: Word,
    pub rng: ChaCha20Rng,
}

impl AccountIdBuilder {
    /// A builder for an updatable-code regular account kept off chain.
    pub fn new(rng: ChaCha20Rng) -> (r: AccountIdBuilder)
        ensures
            r.account_type == AccountType::RegularAccountUpdatableCode,
            r.storage_type == AccountStorageType::OffChain,
            r.code@ == DEFAULT_ACCOUNT_CODE@,
            r.storage_root == EMPTY_WORD,
            r.rng == rng,
    {
        AccountIdBuilder {
            account_type: AccountType::RegularAccountUpdatableCode,
            storage_type: AccountStorageType::OffChain,
            code: DEFAULT_ACCOUNT_CODE.to_owned(),
            storage_root: EMPTY_WORD,
            rng,
        }
    }

    pub fn account_type(&mut self, account_type: AccountType)
        ensures
            *final(self) == (AccountIdBuilder { account_type, ..*old(self) }),
    {
        self.account_type = account_type;
    }

    pub fn storage_type(&mut self, storage_type: AccountStorageType)
        ensures
            *final(self) == (AccountIdBuilder { storage_type, ..*old(self) }),
    {
        self.storage_type = storage_type;
    }

    pub fn code(&mut self, code: &str)
        ensures
            final(self).code@ == code@,
            final(self).account_type == old(self).account_type,
            final(self).storage_type == old(self).storage_type,
            final(self).storage_root == old(self).storage_root,
            final(self).rng == old(self).rng,
    {
        self.code = code.to_owned();
    }

    pub fn storage_root(&mut self, storage_root: Word)
        ensures
            *final(self) == (AccountIdBuilder { storage_root, ..*old(self) }),
    {
        self.storage_root = storage_root;
    }

    /// Draws fresh random bytes, searches a seed from them and returns the seed with its
    /// identifier, whose tags are the configured ones. Only a compile error of the configured
    /// code makes it fail. Only the generator's state changes.
    pub fn build(&mut self, assembler: Assembler) -> (r: Result<(AccountId, Word), AccountBuilderError>)
        ensures
            final(self).account_type == old(self).account_type,
            final(self).storage_type == old(self).storage_type,
            final(self).code == old(self).code,
            final(self).storage_root == old(self).storage_root,
            r is Ok ==> account_type_of(r->Ok_0.0.value) == old(self).account_type,
            r is Ok ==> storage_type_of(r->Ok_0.0.value) == old(self).storage_type,
            r is Ok ==> exists|code: AccountCode| #[trigger] derived_id(r->Ok_0.1@, commitment_of(code), old(self).storage_root@)
                == Some(r->Ok_0.0.value),
            r is Err ==> r matches Err(AccountBuilderError::AccountError(_)),
    {
        let init_seed = draw_seed_bytes(&mut self.rng);
        let compiled = compile_account_code(self.code.as_str(), assembler);
        let ghost g = compiled;
        let r = id_and_seed_for_code(compiled, init_seed, self.storage_root, self.account_type, self.storage_type);
        proof {
            if r is Ok {
                let c = g->Ok_0;
                assert(derived_id(r->Ok_0.1@, commitment_of(c), self.storage_root@) == Some(r->Ok_0.0.value));
            }
        }
        r
    }

    /// Derives the identifier from `seed` without searching, and checks its tags against the
    /// configured ones. A compile error of the configured code is passed on untouched; otherwise
    /// the outcome is that of checking the identifier derived from the code's commitment.
    pub fn with_seed(&mut self, seed: Word, assembler: Assembler) -> (r: Result<AccountId, AccountBuilderError>)
        ensures
            *final(self) == *old(self),
            r matches Err(AccountBuilderError::AccountError(_)) || exists|code: AccountCode|
                seed_check_outcome(#[trigger] derived_id(seed@, commitment_of(code), old(self).storage_root@),
                    old(self).account_type, old(self).storage_type, r),
    {
        let compiled = compile_account_code(self.code.as_str(), assembler);
        let ghost g = compiled;
        let r = id_for_code(compiled, seed, self.storage_root, self.account_type, self.storage_type);
        proof {
            if g is Ok {
                let c = g->Ok_0;
                assert(seed_check_outcome(derived_id(seed@, commitment_of(c), self.storage_root@),
                    self.account_type, self.storage_type, r));
            }
        }
        r
    }
}

/// Builder for an `Account` with a fluent interface. Each terminal consumes the builder;
/// clone it first to build several accounts from one configuration.
#[derive(Debug, Clone)]
pub struct AccountBuilder {
    pub assets: Vec<Asset>,
    pub storage_builder: AccountStorageBuilder,
    pub code: String,
    pub nonce: u64,
    pub account_id_builder: AccountIdBuilder,
}

/// An account made of `vault`, `storage`, `code` and `nonce`, whose identifier `seed` derives
/// from the code's commitment and the storage's root, with the configured tags.
pub open spec fn assembled_from(
    acc: Account,
    seed: Word,
    vault: AssetVault,
    storage: AccountStorage,
    code: AccountCode,
    nonce: u64,
    account_type: AccountType,
    storage_type: AccountStorageType,
) -> bool {
    &&& acc.vault == vault
    &&& acc.storage == storage
    &&& acc.code == code
    &&& acc.nonce == nonce
    &&& id_fits(acc.id, seed, commitment_of(code), slots_root(storage_slots(storage)), account_type, storage_type)
}

/// What building from parts gives: the first failed part's error (vault, then storage, then
/// code), or else `ok`.
pub open spec fn parts_outcome<T>(
    vault: Result<AssetVault, miden_objects::AssetVaultError>,
    storage: Result<AccountStorage, AccountBuilderError>,
    code: Result<AccountCode, miden_objects::AccountError>,
    r: Result<T, AccountBuilderError>,
    ok: spec_fn(AssetVault, AccountStorage, AccountCode) -> bool,
) -> bool {
    match vault {
        Err(e) => r == Err::<T, AccountBuilderError>(AccountBuilderError::AssetVaultError(e)),
        Ok(v) => match storage {
            Err(e) => r == Err::<T, AccountBuilderError>(e),
            Ok(s) => match code {
                Err(e) => r == Err::<T, AccountBuilderError>(AccountBuilderError::AccountError(e)),
                Ok(c) => ok(v, s, c),
            },
        },
    }
}

/// Assembles an account from built parts with a seed searched from `init_seed`. The first
/// failed part's error is passed on; when all parts are built it always succeeds.
pub fn assemble_account(
    vault: Result<AssetVault, miden_objects::AssetVaultError>,
    storage: Result<AccountStorage, AccountBuilderError>,
    code: Result<AccountCode, miden_objects::AccountError>,
    init_seed: [u8; 32],
    account_type: AccountType,
    storage_type: AccountStorageType,
    nonce: u64,
) -> (r: Result<(Account, Word), AccountBuilderError>)
    ensures
        parts_outcome(vault, storage, code, r, |v: AssetVault, s: AccountStorage, c: AccountCode|
            r is Ok && assembled_from(r->Ok_0.0, r->Ok_0.1, v, s, c, nonce, account_type, storage_type)),
{
    let vault = match vault {
        Ok(v) => v,
        Err(e) => return Err(AccountBuilderError::AssetVaultError(e)),
    };
    let storage = match storage {
        Ok(s) => s,
        Err(e) => return Err(e),
    };
    let code = match code {
        Ok(c) => c,
        Err(e) => return Err(AccountBuilderError::AccountError(e)),
    };
    let root = storage_root(&storage);
    let commitment = code_commitment(&code);
    let seed = match find_account_seed(init_seed, account_type, storage_type, commitment, root) {
        Ok(seed) => seed,
        Err(e) => return Err(AccountBuilderError::AccountError(e)),
    };
    match derive_account_id(seed, commitment, root) {
        Ok(id) => Ok((Account { id, vault, storage, code, nonce }, seed)),
        Err(e) => Err(AccountBuilderError::AccountError(e)),
    }
}

/// Assembles an account from built parts with the given `seed`. The first failed part's error
/// is passed on; when all parts are built the outcome is that of checking the identifier that
/// the seed derives from the code's commitment and the storage's root.
pub fn assemble_account_with_seed(
    vault: Result<AssetVault, miden_objects::AssetVaultError>,
    storage: Result<AccountStorage, AccountBuilderError>,
    code: Result<AccountCode, miden_objects::AccountError>,
    seed: Word,
    account_type: AccountType,
    storage_type: AccountStorageType,
    nonce: u64,
) -> (r: Result<Account, AccountBuilderError>)
    ensures
        parts_outcome(vault, storage, code, r, |v: AssetVault, s: AccountStorage, c: AccountCode|
            seed_check_outcome(derived_id(seed@, commitment_of(c), slots_root(storage_slots(s))), account_type, storage_type,
                match r { Ok(acc) => Ok(acc.id), Err(e) => Err(e) })
            && (r matches Ok(acc) ==> assembled_from(acc, seed, v, s, c, nonce, account_type, storage_type))),
{
    let vault = match vault {
        Ok(v) => v,
        Err(e) => return Err(AccountBuilderError::AssetVaultError(e)),
    };
    let storage = match storage {
        Ok(s) => s,
        Err(e) => return Err(e),
    };
    let code = match code {
        Ok(c) => c,
        Err(e) => return Err(AccountBuilderError::AccountError(e)),
    };
    let root = storage_root(&storage);
    let commitment = code_commitment(&code);
    match account_id_for_seed(seed, commitment, root, account_type, storage_type) {
        Ok(id) => Ok(Account { id, vault, storage, code, nonce }),
        Err(e) => Err(e),
    }
}

/// Whether the merge of `leaves` has written slot `k` by its `n`-th step.
pub open spec fn copied(leaves: Seq<(u8, Word)>, n: int, k: u8) -> bool {
    k != SLOT_LAYOUT_COMMITMENT_INDEX && exists|l: int| 0 <= l < n && #[trigger] leaves[l].0 == k
}

/// Writes every non-empty slot of `inner` into `base`, except the reserved layout-commitment
/// slot, and leaves every other slot of `base` as it was; an error of `inner`, or of a write,
/// is passed on.
pub fn merge_storage(
    base: AccountStorage,
    inner: Result<AccountStorage, AccountBuilderError>,
) -> (r: Result<AccountStorage, AccountBuilderError>)
    ensures
        inner is Err ==> r == inner,
        r is Err ==> r == inner || r matches Err(AccountBuilderError::AccountError(_)),
        r matches Ok(m) ==> storage_slots(m).contains_key(SLOT_LAYOUT_COMMITMENT_INDEX) == storage_slots(base).contains_key(SLOT_LAYOUT_COMMITMENT_INDEX)
            && storage_slots(m)[SLOT_LAYOUT_COMMITMENT_INDEX] == storage_slots(base)[SLOT_LAYOUT_COMMITMENT_INDEX],
        r matches Ok(m) ==> inner matches Ok(i) && forall|k: u8| k != SLOT_LAYOUT_COMMITMENT_INDEX
            && storage_slots(i).contains_key(k) && #[trigger] storage_slots(i)[k] != EMPTY_WORD@
            ==> storage_slots(m).contains_key(k) && storage_slots(m)[k] == storage_slots(i)[k],
        r matches Ok(m) ==> inner matches Ok(i) && forall|k: u8| #[trigger] storage_slots(m).contains_key(k)
            && !(k != SLOT_LAYOUT_COMMITMENT_INDEX && storage_slots(i).contains_key(k) && storage_slots(i)[k] != EMPTY_WORD@)
            ==> storage_slots(base).contains_key(k) && storage_slots(m)[k] == storage_slots(base)[k],
{
    let inner_storage = match inner {
        Ok(s) => s,
        Err(e) => return Err(e),
    };
    let leaves = storage_leaves(&inner_storage);
    let mut merged = base;
    let mut j: usize = 0;
    while j < leaves.len()
        invariant
            0 <= j <= leaves@.len(),
            inner is Ok,
            forall|x: int, y: int| 0 <= x < leaves@.len() && 0 <= y < leaves@.len() && x != y
                ==> #[trigger] leaves@[x].0 != #[trigger] leaves@[y].0,
            forall|x: int| 0 <= x < leaves@.len() ==> felt_word(#[trigger] leaves@[x].1) == leaves@[x].1@,
            storage_slots(merged).contains_key(SLOT_LAYOUT_COMMITMENT_INDEX) == storage_slots(base).contains_key(SLOT_LAYOUT_COMMITMENT_INDEX),
            storage_slots(merged)[SLOT_LAYOUT_COMMITMENT_INDEX] == storage_slots(base)[SLOT_LAYOUT_COMMITMENT_INDEX],
            forall|l: int| 0 <= l < j && #[trigger] leaves@[l].0 != SLOT_LAYOUT_COMMITMENT_INDEX
                ==> storage_slots(merged).contains_key(leaves@[l].0)
                && storage_slots(merged)[leaves@[l].0] == leaves@[l].1@,
            forall|k: u8| #[trigger] storage_slots(merged).contains_key(k) && !copied(leaves@, j as int, k)
                ==> storage_slots(base).contains_key(k) && storage_slots(merged)[k] == storage_slots(base)[k],
        decreases leaves@.len() - j,
    {
        let (key, value) = leaves[j];
        if key != SLOT_LAYOUT_COMMITMENT_INDEX {
            match set_storage_item(&mut merged, key, value) {
                Ok(_) => {},
                Err(e) => return Err(AccountBuilderError::AccountError(e)),
            }
        }
        proof {
            assert forall|k: u8| #[trigger] storage_slots(merged).contains_key(k) && !copied(leaves@, j as int + 1, k) implies
                storage_slots(base).contains_key(k) && storage_slots(merged)[k] == storage_slots(base)[k] by {
                if copied(leaves@, j as int, k) {
                    let l = choose|l: int| 0 <= l < j && #[trigger] leaves@[l].0 == k;
                    assert(0 <= l < j as int + 1 && leaves@[l].0 == k);
                }
                assert(k != key || key == SLOT_LAYOUT_COMMITMENT_INDEX);
            }
            assert forall|l: int| 0 <= l < j && #[trigger] leaves@[l].0 != SLOT_LAYOUT_COMMITMENT_INDEX implies
                storage_slots(merged).contains_key(leaves@[l].0) && storage_slots(merged)[leaves@[l].0] == leaves@[l].1@ by {
                assert(leaves@[l].0 != leaves@[j as int].0);
            }
        }
        j = j + 1;
    }
    proof {
        assert forall|k: u8| k != SLOT_LAYOUT_COMMITMENT_INDEX
            && storage_slots(inner_storage).contains_key(k) && #[trigger] storage_slots(inner_storage)[k] != EMPTY_WORD@ implies
            storage_slots(merged).contains_key(k) && storage_slots(merged)[k] == storage_slots(inner_storage)[k] by {
            let l = choose|l: int| 0 <= l < leaves@.len() && #[trigger] leaves@[l].0 == k;
            assert(leaves@[l].0 == k);
        }
        assert forall|k: u8| #[trigger] storage_slots(merged).contains_key(k)
            && !(k != SLOT_LAYOUT_COMMITMENT_INDEX && storage_slots(inner_storage).contains_key(k) && storage_slots(inner_storage)[k] != EMPTY_WORD@)
            implies storage_slots(base).contains_key(k) && storage_slots(merged)[k] == storage_slots(base)[k] by {
            if copied(leaves@, j as int, k) {
                let l = choose|l: int| 0 <= l < j && #[trigger] leaves@[l].0 == k;
                assert(felt_word(leaves@[l].1) == leaves@[l].1@);
                assert(storage_slots(inner_storage).contains_key(leaves@[l].0));
            }
        }
    }
    Ok(merged)
}

/// An account built from `b` with `seed`: the builder's nonce, its storage items in place, and
/// an identifier that the seed derives from the account code's commitment and the storage's
/// root, with the configured tags.
pub open spec fn built_from(acc: Account, seed: Word, b: AccountBuilder) -> bool {
    &&& acc.nonce == b.nonce
    &&& holds_items(storage_slots(acc.storage), b.storage_builder.items@)
    &&& storage_slots(acc.storage) == storage_slots_for(items_by_index(b.storage_builder.items@))
    &&& id_fits(acc.id, seed, commitment_of(acc.code), slots_root(storage_slots(acc.storage)),
        b.account_id_builder.account_type, b.account_id_builder.storage_type)
}

impl AccountBuilder {
    /// A builder with no assets, empty storage, the default code, a zero nonce, and an
    /// identifier configured as an updatable-code regular account kept off chain.
    pub fn new(rng: ChaCha20Rng) -> (r: AccountBuilder)
        ensures
            r.assets@ == Seq::<Asset>::empty(),
            r.storage_builder.items@ == Seq::<SlotItem>::empty(),
            r.storage_builder.maps@ == Map::<u8, StorageMap>::empty(),
            r.code@ == DEFAULT_ACCOUNT_CODE@,
            r.nonce == 0,
            r.account_id_builder.account_type == AccountType::RegularAccountUpdatableCode,
            r.account_id_builder.storage_type == AccountStorageType::OffChain,
            r.account_id_builder.code@ == DEFAULT_ACCOUNT_CODE@,
            r.account_id_builder.storage_root == EMPTY_WORD,
            r.account_id_builder.rng == rng,
    {
        AccountBuilder {
            assets: Vec::new(),
            storage_builder: AccountStorageBuilder::new(),
            code: DEFAULT_ACCOUNT_CODE.to_owned(),
            nonce: 0,
            account_id_builder: AccountIdBuilder::new(rng),
        }
    }

    pub fn add_asset(self, asset: Asset) -> (r: AccountBuilder)
        ensures
            r.assets@ == self.assets@.push(asset),
            r.storage_builder == self.storage_builder,
            r.code == self.code,
            r.nonce == self.nonce,
            r.account_id_builder == self.account_id_builder,
    {
        let mut b = self;
        b.assets.push(asset);
        b
    }

    pub fn add_assets(self, assets: Vec<Asset>) -> (r: AccountBuilder)
        ensures
            r.assets@ == self.assets@ + assets@,
            r.storage_builder == self.storage_builder,
            r.code == self.code,
            r.nonce == self.nonce,
            r.account_id_builder == self.account_id_builder,
    {
        let mut b = self;
        let mut rest = assets;
        b.assets.append(&mut rest);
        b
    }

    pub fn add_storage_item(self, item: SlotItem) -> (r: AccountBuilder)
        ensures
            r.storage_builder.items@ == self.storage_builder.items@.push(item),
            r.storage_builder.maps@ == self.storage_builder.maps@,
            r.assets == self.assets,
            r.code == self.code,
            r.nonce == self.nonce,
            r.account_id_builder == self.account_id_builder,
    {
        let mut b = self;
        b.storage_builder.add_item(item);
        b
    }

    pub fn add_storage_items(self, items: Vec<SlotItem>) -> (r: AccountBuilder)
        ensures
            r.storage_builder.items@ == self.storage_builder.items@ + items@,
            r.storage_builder.maps@ == self.storage_builder.maps@,
            r.assets == self.assets,
            r.code == self.code,
            r.nonce == self.nonce,
            r.account_id_builder == self.account_id_builder,
    {
        let mut b = self;
        b.storage_builder.add_items(items);
        b
    }

    pub fn code(self, code: &str) -> (r: AccountBuilder)
        ensures
            r.code@ == code@,
            r.assets == self.assets,
            r.storage_builder == self.storage_builder,
            r.nonce == self.nonce,
            r.account_id_builder == self.account_id_builder,
    {
        let mut b = self;
        b.code = code.to_owned();
        b
    }

    pub fn nonce(self, nonce: u64) -> (r: AccountBuilder)
        ensures
            r == (AccountBuilder { nonce, ..self }),
    {
        let mut b = self;
        b.nonce = nonce;
        b
    }

    pub fn account_type(self, account_type: AccountType) -> (r: AccountBuilder)
        ensures
            r == (AccountBuilder {
                account_id_builder: AccountIdBuilder { account_type, ..self.account_id_builder },
                ..self
            }),
    {
        let mut b = self;
        b.account_id_builder.account_type(account_type);
        b
    }

    pub fn storage_type(self, storage_type: AccountStorageType) -> (r: AccountBuilder)
        ensures
            r == (AccountBuilder {
                account_id_builder: AccountIdBuilder { storage_type, ..self.account_id_builder },
                ..self
            }),
    {
        let mut b = self;
        b.account_id_builder.storage_type(storage_type);
        b
    }

    /// Builds the account with a seed searched from a fresh draw of the builder's generator,
    /// and returns it with that seed. Only the asset vault, the storage or the code can make it
    /// fail, each with its own error passed on untouched.
    pub fn build(self, assembler: Assembler) -> (r: Result<(Account, Word), AccountBuilderError>)
        ensures
            r matches Ok((acc, seed)) ==> built_from(acc, seed, self),
            !storage_items_ok(self.storage_builder.items@, self.storage_builder.maps@.dom()) ==> r is Err,
            r is Err ==> r matches Err(AccountBuilderError::AssetVaultError(_))
                || r matches Err(AccountBuilderError::AccountError(_)),
            self.assets@.len() <= 1 && storage_items_ok(self.storage_builder.items@, self.storage_builder.maps@.dom())
                ==> r is Ok || r matches Err(AccountBuilderError::AccountError(_)),
    {
        let mut b = self;
        let vault = new_asset_vault(&b.assets);
        let storage = b.storage_builder.build();
        let code = compile_account_code(b.code.as_str(), assembler);
        let init_seed = draw_seed_bytes(&mut b.account_id_builder.rng);
        assemble_account(
            vault,
            storage,
            code,
            init_seed,
            b.account_id_builder.account_type,
            b.account_id_builder.storage_type,
            b.nonce,
        )
    }

    /// Builds the account with the given `seed`, which must derive, from the code's commitment
    /// and the storage's root, an identifier with the configured tags.
    pub fn build_with_seed(self, seed: Word, assembler: Assembler) -> (r: Result<Account, AccountBuilderError>)
        ensures
            r matches Ok(acc) ==> built_from(acc, seed, self),
            !storage_items_ok(self.storage_builder.items@, self.storage_builder.maps@.dom()) ==> r is Err,
            r matches Err(AccountBuilderError::AssetVaultError(_)) || r matches Err(AccountBuilderError::AccountError(_))
                || exists|code: AccountCode| seed_check_outcome(
                    #[trigger] derived_id(seed@, commitment_of(code), slots_root(storage_slots_for(items_by_index(self.storage_builder.items@)))),
                    self.account_id_builder.account_type, self.account_id_builder.storage_type, id_result(r)),
    {
        let b = self;
        let vault = new_asset_vault(&b.assets);
        let storage = b.storage_builder.build();
        let code = compile_account_code(b.code.as_str(), assembler);
        let ghost parts = (vault, storage, code);
        let r = assemble_account_with_seed(
            vault,
            storage,
            code,
            seed,
            b.account_id_builder.account_type,
            b.account_id_builder.storage_type,
            b.nonce,
        );
        proof {
            if parts.0 is Ok && parts.1 is Ok && parts.2 is Ok {
                let s = parts.1->Ok_0;
                let c = parts.2->Ok_0;
                assert(seed_check_outcome(derived_id(seed@, commitment_of(c), slots_root(storage_slots(s))),
                    b.account_id_builder.account_type, b.account_id_builder.storage_type, id_result(r)));
            }
        }
        r
    }

    /// Builds the account with the given `seed` on top of `storage`: every non-empty slot that
    /// this builder's items set, but the reserved layout-commitment slot, is written into it.
    pub fn build_with_seed_and_storage(self, seed: Word, storage: AccountStorage, assembler: Assembler) -> (r: Result<Account, AccountBuilderError>)
        ensures
            r matches Ok(acc) ==> acc.nonce == self.nonce
                && id_fits(acc.id, seed, commitment_of(acc.code), slots_root(storage_slots(acc.storage)),
                    self.account_id_builder.account_type, self.account_id_builder.storage_type)
                && storage_slots(acc.storage).contains_key(SLOT_LAYOUT_COMMITMENT_INDEX) == storage_slots(storage).contains_key(SLOT_LAYOUT_COMMITMENT_INDEX)
                && storage_slots(acc.storage)[SLOT_LAYOUT_COMMITMENT_INDEX] == storage_slots(storage)[SLOT_LAYOUT_COMMITMENT_INDEX],
            r matches Ok(acc) ==> forall|i: int| 0 <= i < self.storage_builder.items@.len()
                && #[trigger] felt_word(self.storage_builder.items@[i].value) != EMPTY_WORD@
                ==> storage_slots(acc.storage).contains_key(self.storage_builder.items@[i].index)
                && storage_slots(acc.storage)[self.storage_builder.items@[i].index] == felt_word(self.storage_builder.items@[i].value),
            !storage_items_ok(self.storage_builder.items@, self.storage_builder.maps@.dom()) ==> r is Err,
            r matches Ok(acc) ==> forall|k: u8| #[trigger] storage_slots(acc.storage).contains_key(k)
                && !(exists|i: int| 0 <= i < self.storage_builder.items@.len() && #[trigger] self.storage_builder.items@[i].index == k)
                ==> storage_slots(storage).contains_key(k) && storage_slots(acc.storage)[k] == storage_slots(storage)[k],
    {
        let b = self;
        let vault = new_asset_vault(&b.assets);
        let inner = b.storage_builder.build();
        let ghost inner_g = inner;
        let merged = merge_storage(storage, inner);
        let code = compile_account_code(b.code.as_str(), assembler);
        let r = assemble_account_with_seed(
            vault,
            merged,
            code,
            seed,
            b.account_id_builder.account_type,
            b.account_id_builder.storage_type,
            b.nonce,
        );
        proof {
            if r is Ok {
                let acc = r->Ok_0;
                let i_s = inner_g->Ok_0;
                assert forall|i: int| 0 <= i < b.storage_builder.items@.len()
                    && #[trigger] felt_word(b.storage_builder.items@[i].value) != EMPTY_WORD@ implies
                    storage_slots(acc.storage).contains_key(b.storage_builder.items@[i].index)
                    && storage_slots(acc.storage)[b.storage_builder.items@[i].index] == felt_word(b.storage_builder.items@[i].value) by {
                    let k = b.storage_builder.items@[i].index;
                    assert(k != SLOT_LAYOUT_COMMITMENT_INDEX);
                    assert(storage_slots(i_s).contains_key(k));
                    assert(storage_slots(i_s)[k] != EMPTY_WORD@);
                }
                assert forall|k: u8| #[trigger] storage_slots(acc.storage).contains_key(k)
                    && !(exists|i: int| 0 <= i < b.storage_builder.items@.len() && #[trigger] b.storage_builder.items@[i].index == k)
                    implies storage_slots(storage).contains_key(k) && storage_slots(acc.storage)[k] == storage_slots(storage)[k] by {
                    if k != SLOT_LAYOUT_COMMITMENT_INDEX {
                        assert(storage_slots(i_s).contains_key(k) && storage_slots(i_s)[k] == EMPTY_WORD@);
                    }
                }
            }
        }
        r
    }

    /// Draws a signing key from `rng`, puts its public key into storage slot 0 and builds the
    /// account with a searched seed; the secret key is handed back beside the account.
    pub fn build_with_auth(self, assembler: &Assembler, rng: &mut ChaCha20Rng) -> (r: Result<(Account, Word, SecretKey), AccountBuilderError>)
        ensures
            r matches Ok((acc, seed, key)) ==> acc.nonce == self.nonce
                && holds_items(storage_slots(acc.storage), self.storage_builder.items@)
                && storage_slots(acc.storage).contains_key(0u8)
                && storage_slots(acc.storage)[0u8] == public_key_of(key)
                && exists|pk: Word| pk@ == public_key_of(key) && #[trigger] storage_slots_for(items_by_index(
                    self.storage_builder.items@.push(SlotItem { index: 0u8, kind: SlotKind::Value, arity: 0u8, value: pk })))
                    == storage_slots(acc.storage)
                && id_fits(acc.id, seed, commitment_of(acc.code), slots_root(storage_slots(acc.storage)),
                    self.account_id_builder.account_type, self.account_id_builder.storage_type),
            !storage_items_ok(self.storage_builder.items@, self.storage_builder.maps@.dom()) ==> r is Err,
            r is Err ==> r matches Err(AccountBuilderError::AssetVaultError(_))
                || r matches Err(AccountBuilderError::AccountError(_)),
    {
        let key = new_secret_key(rng);
        let public_key = public_key_word(&key);
        let item = SlotItem::new_value(0, 0, public_key);
        let b = self.add_storage_item(item);
        proof {
            let items = self.storage_builder.items@;
            let more = b.storage_builder.items@;
            assert(forall|i: int| 0 <= i < items.len() ==> more[i] == items[i]);
            if !storage_items_ok(items, self.storage_builder.maps@.dom()) {
                if !storage_items_ok(more, b.storage_builder.maps@.dom()) {
                } else {
                    assert forall|i: int| 0 <= i < items.len() implies #[trigger] items[i].index != 255u8 by {
                        assert(more[i] == items[i]);
                    }
                    assert forall|i: int, j: int| 0 <= i < items.len() && 0 <= j < items.len() && i != j
                        implies #[trigger] items[i].index != #[trigger] items[j].index by {
                        assert(more[i] == items[i] && more[j] == items[j]);
                    }
                    let sm = Set::new(|k: u8| exists|i: int| 0 <= i < more.len()
                        && #[trigger] more[i].index == k && more[i].kind is StorageMap);
                    let si = Set::new(|k: u8| exists|i: int| 0 <= i < items.len()
                        && #[trigger] items[i].index == k && items[i].kind is StorageMap);
                    assert forall|k: u8| #[trigger] sm.contains(k) <==> si.contains(k) by {
                        if sm.contains(k) {
                            let i = choose|i: int| 0 <= i < more.len() && #[trigger] more[i].index == k && more[i].kind is StorageMap;
                            assert(i != items.len());
                            assert(more[i] == items[i]);
                        }
                        if si.contains(k) {
                            let i = choose|i: int| 0 <= i < items.len() && #[trigger] items[i].index == k && items[i].kind is StorageMap;
                            assert(more[i] == items[i]);
                        }
                    }
                    assert(sm =~= si);
                }
            }
        }
        let (acc, seed) = b.build(assembler.clone())?;
        proof {
            assert(b.storage_builder.items@ == self.storage_builder.items@.push(item));
            assert(storage_slots_for(items_by_index(self.storage_builder.items@.push(
                SlotItem { index: 0u8, kind: SlotKind::Value, arity: 0u8, value: public_key }))) == storage_slots(acc.storage));
            let n = self.storage_builder.items@.len() as int;
            assert(b.storage_builder.items@[n].index == 0u8);
            assert forall|i: int| 0 <= i < self.storage_builder.items@.len() implies
                storage_slots(acc.storage).contains_key(#[trigger] self.storage_builder.items@[i].index)
                && storage_slots(acc.storage)[self.storage_builder.items@[i].index] == felt_word(self.storage_builder.items@[i].value) by {
                assert(b.storage_builder.items@[i] == self.storage_builder.items@[i]);
            }
        }
        Ok((acc, seed, key))
    }
}

/// The identifier of a built account, or the error.
pub open spec fn id_result(r: Result<Account, AccountBuilderError>) -> Result<AccountId, AccountBuilderError> {
    match r {
        Ok(acc) => Ok(acc.id),
        Err(e) => Err(e),
    }
}

/// Reusing a configuration: two accounts built from builders with the same storage items hold
/// the same storage, and so the same storage root, whatever seeds their identifiers came from.
pub proof fn lemma_same_items_same_storage_root(
    a: Account,
    seed_a: Word,
    builder_a: AccountBuilder,
    b: Account,
    seed_b: Word,
    builder_b: AccountBuilder,
)
    requires
        built_from(a, seed_a, builder_a),
        built_from(b, seed_b, builder_b),
        builder_a.storage_builder.items@ == builder_b.storage_builder.items@,
    ensures
        storage_slots(a.storage) == storage_slots(b.storage),
        slots_root(storage_slots(a.storage)) == slots_root(storage_slots(b.storage)),
{
}

/// Storage does not depend on the order of its items: two storage builders whose item lists hold
/// the same items, with distinct indices, build storages with the same slots and root.
pub proof fn lemma_storage_order_irrelevant(
    a: AccountStorageBuilder,
    b: AccountStorageBuilder,
    sa: AccountStorage,
    sb: AccountStorage,
)
    requires
        storage_slots(sa) == storage_slots_for(items_by_index(a.items@)),
        storage_slots(sb) == storage_slots_for(items_by_index(b.items@)),
        distinct_indices(a.items@),
        distinct_indices(b.items@),
        forall|x: SlotItem| a.items@.contains(x) <==> b.items@.contains(x),
    ensures
        storage_slots(sa) == storage_slots(sb),
        slots_root(storage_slots(sa)) == slots_root(storage_slots(sb)),
{
    lemma_item_order_irrelevant(a.items@, b.items@);
}

} // verus!
