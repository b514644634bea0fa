//! A ready account, and the checks on inputs, for running one transaction against it.

use crate::account_builder::{Account, AccountBuilderError};
use crate::ledger::{
    compile_account_code, compile_note_script, compile_transaction_script, kernel_assembler, new_account_storage,
    new_asset_vault, new_note, new_note_assets, new_note_inputs, new_note_metadata,
    new_note_recipient, storage_slots, storage_slots_for, asset_list, input_values, metadata_hint, metadata_note_type,
    metadata_sender, metadata_tag, note_assets_of, note_metadata_of, note_recipient_of,
    recipient_inputs, recipient_script, recipient_serial_num,
};
use crate::types::{items_by_index, felt_value, felt_values, felt_word, AccountId, NoteExecutionHint, NoteType, SlotItem, SlotKind, Word};
use miden_objects::accounts::{AccountCode, StorageMap};
use miden_objects::notes::{Note, NoteScript};
use miden_objects::transaction::TransactionScript;
use miden_objects::{NoteError, TransactionScriptError};
use miden_objects::assets::Asset;
use std::collections::BTreeMap;
use vstd::prelude::*;

verus! {

/// A fungible faucet kept on chain.
pub const ACCOUNT_ID_FUNGIBLE_FAUCET_ON_CHAIN: u64 = 0x200000000000001f;

/// The account that sends the note.
pub const ACCOUNT_ID_SENDER: u64 = 0x800000000000001f;

/// An updatable-code regular account kept off chain.
pub const ACCOUNT_ID_REGULAR_ACCOUNT_UPDATABLE_CODE_OFF_CHAIN: u64 = 0x900000000000003f;

/// Whether all four inputs of a transaction run are present: three non-empty sources and the
/// note inputs.
pub fn example_inputs_valid(
    account_code: &str,
    note_script: &str,
    note_inputs: &Option<Vec<u64>>,
    transaction_script: &str,
) -> (r: bool)
    ensures
        r == (account_code@.len() > 0 && note_script@.len() > 0 && note_inputs is Some
            && transaction_script@.len() > 0),
{
    !(account_code.is_empty() || note_script.is_empty() || note_inputs.is_none()
        || transaction_script.is_empty())
}

/// An account that is already active (nonce 1), made of compiled `code`, `public_key` in
/// storage slot 0 and a vault that holds `assets` if given. A compile error is passed on;
/// otherwise it always succeeds.
pub fn account_from_code(
    code: Result<AccountCode, miden_objects::AccountError>,
    account_id: AccountId,
    public_key: Word,
    assets: Option<Asset>,
) -> (r: Result<Account, AccountBuilderError>)
    ensures
        match code {
            Err(e) => r == Err::<Account, AccountBuilderError>(AccountBuilderError::AccountError(e)),
            Ok(c) => {
                &&& r is Ok
                &&& r->Ok_0.id == account_id
                &&& r->Ok_0.nonce == 1
                &&& r->Ok_0.code == c
                &&& storage_slots(r->Ok_0.storage).contains_key(0u8)
                &&& storage_slots(r->Ok_0.storage)[0u8] == felt_word(public_key)
                &&& storage_slots(r->Ok_0.storage) == storage_slots_for(items_by_index(seq![(SlotItem { index: 0u8, kind: SlotKind::Value, arity: 0u8, value: public_key })]))
            },
        },
{
    let code = match code {
        Ok(c) => c,
        Err(e) => return Err(AccountBuilderError::AccountError(e)),
    };
    let mut items: Vec<SlotItem> = Vec::new();
    items.push(SlotItem::new_value(0, 0, public_key));
    let maps: BTreeMap<u8, StorageMap> = BTreeMap::new();
    proof {
        let si = Set::new(|k: u8| exists|i: int| 0 <= i < items@.len()
            && #[trigger] items@[i].index == k && items@[i].kind is StorageMap);
        assert(si =~= Set::<u8>::empty());
        assert(maps@.dom() =~= Set::<u8>::empty());
        assert(items@[0].index == 0u8);
        assert(items@ =~= seq![(SlotItem { index: 0u8, kind: SlotKind::Value, arity: 0u8, value: public_key })]);
    }
    let storage = match new_account_storage(&items, &maps) {
        Ok(s) => s,
        Err(e) => return Err(AccountBuilderError::AccountError(e)),
    };
    let mut listed: Vec<Asset> = Vec::new();
    match assets {
        Some(asset) => listed.push(asset),
        None => {},
    }
    let vault = match new_asset_vault(&listed) {
        Ok(v) => v,
        Err(e) => return Err(AccountBuilderError::AssetVaultError(e)),
    };
    Ok(Account { id: account_id, vault, storage, code, nonce: 1 })
}

/// An account that is already active (nonce 1): `account_code_src` compiled by the kernel
/// assembler, `public_key` in storage slot 0, and a vault that holds `assets` if given. Only a
/// compile error makes it fail.
pub fn get_account_with_account_code(
    account_code_src: &str,
    account_id: AccountId,
    public_key: Word,
    assets: Option<Asset>,
) -> (r: Result<Account, AccountBuilderError>)
    ensures
        r matches Ok(acc) ==> acc.id == account_id && acc.nonce == 1
            && storage_slots(acc.storage).contains_key(0u8)
            && storage_slots(acc.storage)[0u8] == felt_word(public_key),
        r is Err ==> r matches Err(AccountBuilderError::AccountError(_)),
{
    account_from_code(compile_account_code(account_code_src, kernel_assembler(true)), account_id, public_key, assets)
}

/// The serial number that every fixture note carries. A fixed value makes all such notes
/// linkable; real notes should draw it from a randomness source.
pub const NOTE_SERIAL_NUM: Word = [1u64, 2u64, 3u64, 4u64];

/// The tag of fixture notes.
pub const NOTE_TAG: u32 = 1;

/// Most values a note can take as inputs.
pub const MAX_INPUTS_PER_NOTE: usize = 128;

/// A fixture note: it carries just `fungible_asset`, comes from `sender`, is public with the
/// fixture tag and the hint to run always, has the fixed serial number, and takes `inputs`.
pub open spec fn fixture_note(note: Note, fungible_asset: Asset, sender: AccountId, inputs: Seq<u64>) -> bool {
    &&& asset_list(note_assets_of(note)) == seq![fungible_asset]
    &&& metadata_sender(note_metadata_of(note)) == felt_value(sender.value)
    &&& metadata_note_type(note_metadata_of(note)) == NoteType::Public
    &&& metadata_tag(note_metadata_of(note)) == NOTE_TAG
    &&& metadata_hint(note_metadata_of(note)) == NoteExecutionHint::Always
    &&& recipient_serial_num(note_recipient_of(note)) == seq![1u64, 2u64, 3u64, 4u64]
    &&& input_values(recipient_inputs(note_recipient_of(note))) == felt_values(inputs)
}

/// A public note from `sender` that carries `fungible_asset`, runs the compiled `script` and
/// takes `inputs`, with the fixed serial number and tag. A compile error is passed on;
/// otherwise it succeeds exactly when there are at most `MAX_INPUTS_PER_NOTE` inputs.
pub fn note_from_script(
    script: Result<NoteScript, NoteError>,
    fungible_asset: Asset,
    sender_id: AccountId,
    inputs: Vec<u64>,
) -> (r: Result<Note, NoteError>)
    ensures
        match script {
            Err(e) => r == Err::<Note, NoteError>(e),
            Ok(s) => {
                &&& r is Ok <==> inputs@.len() <= MAX_INPUTS_PER_NOTE
                &&& r is Ok ==> fixture_note(r->Ok_0, fungible_asset, sender_id, inputs@)
                &&& r is Ok ==> recipient_script(note_recipient_of(r->Ok_0)) == s
            },
        },
{
    let script = match script {
        Ok(s) => s,
        Err(e) => return Err(e),
    };
    let mut assets: Vec<Asset> = Vec::new();
    assets.push(fungible_asset);
    let vault = new_note_assets(assets)?;
    let metadata = new_note_metadata(sender_id, NoteType::Public, NOTE_TAG, NoteExecutionHint::Always, 0)?;
    let note_inputs = match new_note_inputs(&inputs) {
        Ok(i) => i,
        Err(e) => return Err(e),
    };
    let recipient = new_note_recipient(NOTE_SERIAL_NUM, script, note_inputs);
    proof {
        assert(assets@ == seq![fungible_asset]);
        assert(felt_word(NOTE_SERIAL_NUM) == seq![1u64, 2u64, 3u64, 4u64]);
    }
    Ok(new_note(vault, metadata, recipient))
}

/// A public note from `sender` that carries `fungible_asset`, runs `note_script` compiled by the
/// kernel assembler, and takes `inputs`. It fails where the script does not compile or there
/// are more than `MAX_INPUTS_PER_NOTE` inputs.
pub fn get_note_with_fungible_asset_and_script(
    fungible_asset: Asset,
    note_script: &str,
    sender_id: AccountId,
    inputs: Vec<u64>,
) -> (r: Result<Note, NoteError>)
    ensures
        inputs@.len() > MAX_INPUTS_PER_NOTE ==> r is Err,
        r matches Ok(note) ==> fixture_note(note, fungible_asset, sender_id, inputs@),
{
    note_from_script(compile_note_script(note_script, kernel_assembler(true)), fungible_asset, sender_id, inputs)
}

/// A transaction script compiled by the kernel assembler, with no script inputs.
pub fn build_transaction_script(transaction_script: &str) -> (r: Result<TransactionScript, TransactionScriptError>)
{
    compile_transaction_script(transaction_script, kernel_assembler(false))
}

} // verus!
