use miden_objects::accounts::AccountStorage;
use miden_wasm::account_builder::DEFAULT_ACCOUNT_CODE;
use miden_objects::assets::{Asset, FungibleAsset};
use miden_objects::notes::NoteType;
use miden_wasm::fixtures::{
    example_inputs_valid, get_account_with_account_code, get_note_with_fungible_asset_and_script,
    ACCOUNT_ID_FUNGIBLE_FAUCET_ON_CHAIN, ACCOUNT_ID_REGULAR_ACCOUNT_UPDATABLE_CODE_OFF_CHAIN,
    ACCOUNT_ID_SENDER, NOTE_SERIAL_NUM,
};
use miden_wasm::types::{AccountId, AccountStorageType, AccountType};

#[test]
fn fixture_account_is_active_and_holds_key() {
    let id = AccountId { value: ACCOUNT_ID_REGULAR_ACCOUNT_UPDATABLE_CODE_OFF_CHAIN };
    let account = get_account_with_account_code(DEFAULT_ACCOUNT_CODE, id, [11, 12, 13, 14], None).unwrap();
    assert_eq!(account.nonce, 1);
    assert_eq!(account.id, id);
    assert_eq!(account.storage_item(0), [11, 12, 13, 14]);
    let reserved = AccountStorage::SLOT_LAYOUT_COMMITMENT_INDEX;
    assert_ne!(account.storage_item(reserved), [0, 0, 0, 0]);
}

#[test]
fn fixture_account_with_bad_code_fails() {
    let id = AccountId { value: ACCOUNT_ID_REGULAR_ACCOUNT_UPDATABLE_CODE_OFF_CHAIN };
    assert!(get_account_with_account_code("not valid code", id, [1, 1, 1, 1], None).is_err());
}

#[test]
fn empty_inputs_are_rejected() {
    let inputs = Some(vec![1u64, 2]);
    assert!(example_inputs_valid("code", "note", &inputs, "tx"));
    assert!(!example_inputs_valid("", "note", &inputs, "tx"));
    assert!(!example_inputs_valid("code", "", &inputs, "tx"));
    assert!(!example_inputs_valid("code", "note", &None, "tx"));
    assert!(!example_inputs_valid("code", "note", &inputs, ""));
}

#[test]
fn constant_ids_decode_their_tags() {
    let faucet = AccountId { value: ACCOUNT_ID_FUNGIBLE_FAUCET_ON_CHAIN };
    assert_eq!(faucet.account_type(), AccountType::FungibleFaucet);
    assert_eq!(faucet.storage_type(), AccountStorageType::OnChain);
    let sender = AccountId { value: ACCOUNT_ID_SENDER };
    assert_eq!(sender.account_type(), AccountType::RegularAccountImmutableCode);
    assert_eq!(sender.storage_type(), AccountStorageType::OffChain);
    let target = AccountId { value: ACCOUNT_ID_REGULAR_ACCOUNT_UPDATABLE_CODE_OFF_CHAIN };
    assert_eq!(target.account_type(), AccountType::RegularAccountUpdatableCode);
    assert_eq!(target.storage_type(), AccountStorageType::OffChain);
}

fn faucet_asset() -> Asset {
    let faucet = miden_objects::accounts::AccountId::try_from(ACCOUNT_ID_FUNGIBLE_FAUCET_ON_CHAIN).unwrap();
    FungibleAsset::new(faucet, 100).unwrap().into()
}

const NOTE_SCRIPT: &str = "begin\n    push.1\n    drop\nend\n";

#[test]
fn fixture_note_is_public_with_fixed_serial() {
    let sender = AccountId { value: ACCOUNT_ID_SENDER };
    let note = get_note_with_fungible_asset_and_script(faucet_asset(), NOTE_SCRIPT, sender, vec![1, 2, 3]).unwrap();
    assert_eq!(note.metadata().note_type(), NoteType::Public);
    assert_eq!(u32::from(note.metadata().tag()), 1);
    assert_eq!(u64::from(note.metadata().sender()), ACCOUNT_ID_SENDER);
    assert_eq!(note.recipient().serial_num().map(|f| f.as_int()), NOTE_SERIAL_NUM);
    assert_eq!(note.recipient().inputs().num_values(), 3);
    assert_eq!(note.assets().num_assets(), 1);
}

#[test]
fn fixture_note_with_too_many_inputs_fails() {
    let sender = AccountId { value: ACCOUNT_ID_SENDER };
    let inputs: Vec<u64> = (0..129u64).collect();
    assert!(get_note_with_fungible_asset_and_script(faucet_asset(), NOTE_SCRIPT, sender, inputs).is_err());
    let inputs: Vec<u64> = (0..128u64).collect();
    assert!(get_note_with_fungible_asset_and_script(faucet_asset(), NOTE_SCRIPT, sender, inputs).is_ok());
}

#[test]
fn fixture_note_with_bad_script_fails() {
    let sender = AccountId { value: ACCOUNT_ID_SENDER };
    assert!(get_note_with_fungible_asset_and_script(faucet_asset(), "no script", sender, vec![]).is_err());
}

#[test]
fn transaction_script_compiles_or_fails() {
    assert!(miden_wasm::fixtures::build_transaction_script("begin\n    push.1\n    drop\nend\n").is_ok());
    assert!(miden_wasm::fixtures::build_transaction_script("not a script").is_err());
}

#[test]
fn note_from_compiled_script_checks_input_count() {
    let script = || {
        miden_objects::notes::NoteScript::compile(NOTE_SCRIPT, miden_lib::transaction::TransactionKernel::assembler())
    };
    let sender = AccountId { value: ACCOUNT_ID_SENDER };
    let many: Vec<u64> = (0..129u64).collect();
    assert!(miden_wasm::fixtures::note_from_script(script(), faucet_asset(), sender, many).is_err());
    assert!(miden_wasm::fixtures::note_from_script(script(), faucet_asset(), sender, vec![7]).is_ok());
}

#[test]
fn account_from_code_passes_compile_error_on() {
    let err = miden_objects::accounts::AccountCode::compile("not code", miden_lib::transaction::TransactionKernel::assembler()).unwrap_err();
    let id = AccountId { value: ACCOUNT_ID_REGULAR_ACCOUNT_UPDATABLE_CODE_OFF_CHAIN };
    let r = miden_wasm::fixtures::account_from_code(Err(err), id, [1, 1, 1, 1], None);
    assert!(matches!(r, Err(miden_wasm::account_builder::AccountBuilderError::AccountError(_))));
}

#[test]
fn fixture_note_keeps_inputs_and_asset() {
    let sender = AccountId { value: ACCOUNT_ID_SENDER };
    let note = get_note_with_fungible_asset_and_script(faucet_asset(), NOTE_SCRIPT, sender, vec![5, 6]).unwrap();
    let values: Vec<u64> = note.recipient().inputs().values().iter().map(|f| f.as_int()).collect();
    assert_eq!(values, vec![5, 6]);
    assert_eq!(note.assets().iter().next().copied(), Some(faucet_asset()));
}
