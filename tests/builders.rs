use miden_lib::transaction::TransactionKernel;
use miden_objects::accounts::AccountStorage;
use miden_objects::Felt;
use miden_wasm::account_builder::{
    account_id_for_seed, check_account_id, AccountBuilder, AccountBuilderError, AccountIdBuilder,
    AccountStorageBuilder,
};
use miden_wasm::types::{AccountId, AccountStorageType, AccountType, SlotItem, Word};
use rand_chacha::rand_core::SeedableRng;
use rand_chacha::ChaCha20Rng;

fn rng(byte: u8) -> ChaCha20Rng {
    ChaCha20Rng::from_seed([byte; 32])
}

fn as_word(w: miden_objects::Word) -> Word {
    w.map(|f| f.as_int())
}

#[test]
fn build_default_account_with_one_item() {
    let (account, _seed) = AccountBuilder::new(rng(1))
        .add_storage_item(SlotItem::new_value(1, 0, [7, 0, 0, 0]))
        .build(TransactionKernel::assembler())
        .unwrap();
    assert_eq!(account.nonce, 0);
    assert_ne!(account.storage_root(), [0, 0, 0, 0]);
    assert_eq!(account.storage_item(1), [7, 0, 0, 0]);
    assert_eq!(account.id.account_type(), AccountType::RegularAccountUpdatableCode);
    assert_eq!(account.id.storage_type(), AccountStorageType::OffChain);
}

#[test]
fn built_seed_derives_the_account_id() {
    let builder = AccountBuilder::new(rng(2)).add_storage_item(SlotItem::new_value(4, 0, [1, 2, 3, 4]));
    let (account, seed) = builder.clone().build(TransactionKernel::assembler()).unwrap();
    let again = builder.build_with_seed(seed, TransactionKernel::assembler()).unwrap();
    assert_eq!(again.id, account.id);
    assert_eq!(again.storage_root(), account.storage_root());
}

#[test]
fn on_chain_faucet_search_gives_matching_tags() {
    let (account, _seed) = AccountBuilder::new(rng(3))
        .account_type(AccountType::FungibleFaucet)
        .storage_type(AccountStorageType::OnChain)
        .build(TransactionKernel::assembler())
        .unwrap();
    assert_eq!(account.id.account_type(), AccountType::FungibleFaucet);
    assert_eq!(account.id.storage_type(), AccountStorageType::OnChain);
}

#[test]
fn build_with_auth_stores_public_key_in_slot_zero() {
    let assembler = TransactionKernel::assembler();
    let mut key_rng = rng(0);
    let (account, _seed, secret_key) =
        AccountBuilder::new(rng(4)).build_with_auth(&assembler, &mut key_rng).unwrap();
    let public_key: miden_objects::Word = secret_key.public_key().into();
    assert_eq!(account.storage_item(0), as_word(public_key));
    assert_ne!(account.storage_item(0), [0, 0, 0, 0]);
}

#[test]
fn regular_seed_rejected_for_faucet() {
    let mut ids = AccountIdBuilder::new(rng(5));
    let (id, seed) = ids.build(TransactionKernel::assembler()).unwrap();
    assert_eq!(id.account_type(), AccountType::RegularAccountUpdatableCode);
    ids.account_type(AccountType::FungibleFaucet);
    let r = ids.with_seed(seed, TransactionKernel::assembler());
    assert!(matches!(r, Err(AccountBuilderError::SeedAndAccountTypeMismatch)));
}

#[test]
fn off_chain_seed_rejected_for_on_chain() {
    let mut ids = AccountIdBuilder::new(rng(6));
    let (_id, seed) = ids.build(TransactionKernel::assembler()).unwrap();
    ids.storage_type(AccountStorageType::OnChain);
    let r = ids.with_seed(seed, TransactionKernel::assembler());
    assert!(matches!(r, Err(AccountBuilderError::SeedAndOnChainMismatch)));
}

#[test]
fn build_with_seed_rejects_seed_of_other_type() {
    let builder = AccountBuilder::new(rng(7));
    let (_account, seed) = builder.clone().build(TransactionKernel::assembler()).unwrap();
    let r = builder
        .account_type(AccountType::NonFungibleFaucet)
        .build_with_seed(seed, TransactionKernel::assembler());
    assert!(matches!(r, Err(AccountBuilderError::SeedAndAccountTypeMismatch)));
}

#[test]
fn with_seed_accepts_matching_seed() {
    let mut ids = AccountIdBuilder::new(rng(8));
    let (id, seed) = ids.build(TransactionKernel::assembler()).unwrap();
    assert_eq!(ids.with_seed(seed, TransactionKernel::assembler()).unwrap(), id);
}

#[test]
fn check_account_id_reports_type_mismatch() {
    let regular = AccountId { value: 0x900000000000003f };
    let r = check_account_id(Ok(regular), AccountType::FungibleFaucet, AccountStorageType::OffChain);
    assert!(matches!(r, Err(AccountBuilderError::SeedAndAccountTypeMismatch)));
}

#[test]
fn check_account_id_reports_storage_mismatch() {
    let regular = AccountId { value: 0x900000000000003f };
    let r = check_account_id(
        Ok(regular),
        AccountType::RegularAccountUpdatableCode,
        AccountStorageType::OnChain,
    );
    assert!(matches!(r, Err(AccountBuilderError::SeedAndOnChainMismatch)));
}

#[test]
fn check_account_id_accepts_matching_tags() {
    let faucet = AccountId { value: 0x200000000000001f };
    let r = check_account_id(Ok(faucet), AccountType::FungibleFaucet, AccountStorageType::OnChain);
    assert_eq!(r.unwrap(), faucet);
}

#[test]
fn check_account_id_passes_derivation_error_on() {
    let err = miden_objects::accounts::AccountId::try_from(0u64).unwrap_err();
    let r = check_account_id(Err(err), AccountType::FungibleFaucet, AccountStorageType::OnChain);
    assert!(matches!(r, Err(AccountBuilderError::AccountError(_))));
}

#[test]
fn derivation_is_deterministic() {
    let mut ids = AccountIdBuilder::new(rng(9));
    let (id, seed) = ids.build(TransactionKernel::assembler()).unwrap();
    let code = miden_objects::accounts::AccountCode::compile(
        miden_wasm::account_builder::DEFAULT_ACCOUNT_CODE,
        TransactionKernel::assembler(),
    )
    .unwrap();
    let commitment = as_word(code.commitment().into());
    let root = ids.storage_root;
    let a = account_id_for_seed(seed, commitment, root, ids.account_type, ids.storage_type).unwrap();
    let b = account_id_for_seed(seed, commitment, root, ids.account_type, ids.storage_type).unwrap();
    assert_eq!(a, b);
    assert_eq!(a, id);
}

#[test]
fn derivation_fails_for_arbitrary_seed() {
    let r = account_id_for_seed(
        [1, 2, 3, 4],
        [5, 6, 7, 8],
        [9, 10, 11, 12],
        AccountType::RegularAccountUpdatableCode,
        AccountStorageType::OffChain,
    );
    let s = account_id_for_seed(
        [1, 2, 3, 4],
        [5, 6, 7, 8],
        [9, 10, 11, 12],
        AccountType::RegularAccountUpdatableCode,
        AccountStorageType::OffChain,
    );
    assert_eq!(r.is_ok(), s.is_ok());
}

#[test]
fn builders_with_different_draws_differ_only_in_id() {
    let builder = AccountBuilder::new(rng(10)).add_storage_item(SlotItem::new_value(2, 0, [5, 5, 5, 5]));
    let mut other = builder.clone();
    other.account_id_builder.rng = rng(11);
    let (a, seed_a) = builder.build(TransactionKernel::assembler()).unwrap();
    let (b, seed_b) = other.build(TransactionKernel::assembler()).unwrap();
    assert_ne!(seed_a, seed_b);
    assert_ne!(a.id, b.id);
    assert_eq!(a.storage_root(), b.storage_root());
    assert_eq!(a.code.commitment(), b.code.commitment());
}

#[test]
fn merge_keeps_reserved_slot_of_base_storage() {
    let mut base_builder = AccountStorageBuilder::new();
    base_builder.add_item(SlotItem::new_value(2, 0, [2, 2, 2, 2]));
    let base = base_builder.build().unwrap();
    let mut expected = base.clone();
    expected.set_item(3, [3u64, 3, 3, 3].map(Felt::new)).unwrap();
    let mut ids = AccountIdBuilder::new(rng(12));
    ids.storage_root(as_word(expected.root().into()));
    let (id, seed) = ids.build(TransactionKernel::assembler()).unwrap();

    let account = AccountBuilder::new(rng(13))
        .add_storage_item(SlotItem::new_value(3, 0, [3, 3, 3, 3]))
        .build_with_seed_and_storage(seed, base.clone(), TransactionKernel::assembler())
        .unwrap();
    assert_eq!(account.id, id);
    let reserved = AccountStorage::SLOT_LAYOUT_COMMITMENT_INDEX;
    assert_eq!(account.storage_item(reserved), as_word(base.get_item(reserved).into()));
    assert_eq!(account.storage_item(2), [2, 2, 2, 2]);
    assert_eq!(account.storage_item(3), [3, 3, 3, 3]);
}

#[test]
fn builder_item_at_reserved_slot_fails() {
    let mut storage = AccountStorageBuilder::new();
    storage.add_item(SlotItem::new_value(255, 0, [1, 1, 1, 1]));
    assert!(matches!(storage.build(), Err(AccountBuilderError::AccountError(_))));
    let r = AccountBuilder::new(rng(14))
        .add_storage_item(SlotItem::new_value(255, 0, [1, 1, 1, 1]))
        .build(TransactionKernel::assembler());
    assert!(r.is_err());
}

#[test]
fn duplicate_storage_index_fails() {
    let mut storage = AccountStorageBuilder::new();
    storage.add_items(vec![SlotItem::new_value(1, 0, [1, 0, 0, 0]), SlotItem::new_value(1, 0, [2, 0, 0, 0])]);
    assert_eq!(storage.items.len(), 2);
    assert!(matches!(storage.build(), Err(AccountBuilderError::AccountError(_))));
}

#[test]
fn storage_builder_is_reusable() {
    let mut storage = AccountStorageBuilder::new();
    storage.add_item(SlotItem::new_value(0, 0, [4, 3, 2, 1]));
    let a = storage.build().unwrap();
    let b = storage.build().unwrap();
    assert_eq!(a.root(), b.root());
    assert_eq!(as_word(a.get_item(0).into()), [4, 3, 2, 1]);
}

#[test]
fn unknown_code_fails_to_build() {
    let r = AccountBuilder::new(rng(15))
        .code("export.::no::such::procedure")
        .build(TransactionKernel::assembler());
    assert!(matches!(r, Err(AccountBuilderError::AccountError(_))));
}

#[test]
fn new_builder_defaults() {
    let builder = AccountBuilder::new(rng(16)).nonce(5);
    assert_eq!(builder.nonce, 5);
    assert_eq!(builder.code, miden_wasm::account_builder::DEFAULT_ACCOUNT_CODE);
    assert_eq!(builder.account_id_builder.account_type, AccountType::RegularAccountUpdatableCode);
    assert_eq!(builder.account_id_builder.storage_type, AccountStorageType::OffChain);
    assert!(builder.assets.is_empty());
}

#[test]
fn map_slot_needs_its_map() {
    let map = miden_objects::accounts::StorageMap::new();
    let root = as_word(map.root().into());
    let mut with_map = AccountStorageBuilder::new();
    with_map.add_item(SlotItem::new_map(5, 0, root));
    with_map.add_map(5, map);
    let storage = with_map.build().unwrap();
    assert_eq!(as_word(storage.get_item(5).into()), root);

    let mut without_map = AccountStorageBuilder::new();
    without_map.add_item(SlotItem::new_map(5, 0, root));
    assert!(matches!(without_map.build(), Err(AccountBuilderError::AccountError(_))));
}

#[test]
fn build_with_auth_fails_when_slot_zero_is_taken() {
    let assembler = TransactionKernel::assembler();
    let mut key_rng = rng(0);
    let r = AccountBuilder::new(rng(17))
        .add_storage_item(SlotItem::new_value(0, 0, [1, 1, 1, 1]))
        .build_with_auth(&assembler, &mut key_rng);
    assert!(matches!(r, Err(AccountBuilderError::AccountError(_))));
}

#[test]
fn storage_values_are_reduced_to_field_elements() {
    let mut storage = AccountStorageBuilder::new();
    storage.add_item(SlotItem::new_value(1, 0, [u64::MAX, 0, 0, 0]));
    let built = storage.build().unwrap();
    assert_eq!(as_word(built.get_item(1).into()), [0xFFFF_FFFE, 0, 0, 0]);
}

#[test]
fn compile_error_passes_through_id_for_code() {
    let err = miden_objects::accounts::AccountCode::compile("not code", TransactionKernel::assembler()).unwrap_err();
    let r = miden_wasm::account_builder::id_for_code(
        Err(err),
        [1, 2, 3, 4],
        [0, 0, 0, 0],
        AccountType::RegularAccountUpdatableCode,
        AccountStorageType::OffChain,
    );
    assert!(matches!(r, Err(AccountBuilderError::AccountError(_))));
}

#[test]
fn assemble_account_reports_vault_error_first() {
    let faucet = miden_objects::accounts::AccountId::try_from(0x200000000000001fu64).unwrap();
    let asset: miden_objects::assets::Asset =
        miden_objects::assets::FungibleAsset::new(faucet, 10).unwrap().into();
    let vault = miden_objects::assets::AssetVault::new(&[asset, asset]);
    assert!(vault.is_err());
    let code = miden_objects::accounts::AccountCode::compile(
        miden_wasm::account_builder::DEFAULT_ACCOUNT_CODE,
        TransactionKernel::assembler(),
    );
    let r = miden_wasm::account_builder::assemble_account(
        vault,
        AccountStorageBuilder::new().build(),
        code,
        [3; 32],
        AccountType::RegularAccountUpdatableCode,
        AccountStorageType::OffChain,
        0,
    );
    assert!(matches!(r, Err(AccountBuilderError::AssetVaultError(_))));
}

#[test]
fn storage_item_order_does_not_matter() {
    let a = SlotItem::new_value(1, 0, [1, 0, 0, 0]);
    let b = SlotItem::new_value(2, 0, [2, 0, 0, 0]);
    let mut first = AccountStorageBuilder::new();
    first.add_items(vec![a, b]);
    let mut second = AccountStorageBuilder::new();
    second.add_items(vec![b, a]);
    assert_eq!(first.build().unwrap().root(), second.build().unwrap().root());
}

#[test]
fn merge_keeps_base_slots_the_builder_leaves_alone() {
    let mut base_builder = AccountStorageBuilder::new();
    base_builder.add_items(vec![SlotItem::new_value(2, 0, [2, 2, 2, 2]), SlotItem::new_value(6, 0, [6, 6, 6, 6])]);
    let base = base_builder.build().unwrap();
    let mut expected = base.clone();
    expected.set_item(3, [3u64, 3, 3, 3].map(Felt::new)).unwrap();
    let mut ids = AccountIdBuilder::new(rng(18));
    ids.storage_root(as_word(expected.root().into()));
    let (_id, seed) = ids.build(TransactionKernel::assembler()).unwrap();
    let account = AccountBuilder::new(rng(19))
        .add_storage_item(SlotItem::new_value(3, 0, [3, 3, 3, 3]))
        .build_with_seed_and_storage(seed, base, TransactionKernel::assembler())
        .unwrap();
    assert_eq!(account.storage_item(6), [6, 6, 6, 6]);
    assert_eq!(account.storage_item(2), [2, 2, 2, 2]);
}
