//! The outside ledger types this library works with, and the calls it makes into them.

use crate::types::{
    items_by_index,
    account_type_of, storage_type_of, valid_storage_bits, AccountId, AccountStorageType,
    AccountType, NoteExecutionHint, NoteType, SlotItem, SlotKind, Word, EMPTY_WORD, felt_value, felt_values, felt_word,
};
use miden_objects::accounts::SlotItem as LedgerSlotItem;
use miden_objects::{Digest, Felt};
use std::collections::BTreeMap;
use vstd::prelude::*;

verus! {

#[verifier::external_type_specification]
#[verifier::external_body]
pub struct ExAccountStorage(miden_objects::accounts::AccountStorage);

#[verifier::external_type_specification]
#[verifier::external_body]
pub struct ExStorageMap(miden_objects::accounts::StorageMap);

#[verifier::external_type_specification]
#[verifier::external_body]
pub struct ExAccountCode(miden_objects::accounts::AccountCode);

#[verifier::external_type_specification]
#[verifier::external_body]
pub struct ExAsset(miden_objects::assets::Asset);

#[verifier::external_type_specification]
#[verifier::external_body]
pub struct ExAssetVault(miden_objects::assets::AssetVault);

#[verifier::external_type_specification]
#[verifier::external_body]
pub struct ExAccountError(miden_objects::AccountError);

#[verifier::external_type_specification]
#[verifier::external_body]
pub struct ExAssetVaultError(miden_objects::AssetVaultError);

#[verifier::external_type_specification]
#[verifier::external_body]
pub struct ExMerkleError(miden_objects::crypto::merkle::MerkleError);

#[verifier::external_type_specification]
#[verifier::external_body]
pub struct ExAssembler(miden_objects::assembly::Assembler);

#[verifier::external_type_specification]
#[verifier::external_body]
pub struct ExSecretKey(miden_objects::crypto::dsa::rpo_falcon512::SecretKey);

#[verifier::external_type_specification]
#[verifier::external_body]
pub struct ExChaCha20Rng(rand_chacha::ChaCha20Rng);

/// The identifier value that `AccountId::new` derives from a seed, a code commitment and a
/// storage root, or `None` where the derived digest fails its checks.
pub uninterp spec fn derived_id(seed: Seq<u64>, code_commitment: Seq<u64>, storage_root: Seq<u64>) -> Option<u64>;

/// The commitment of compiled account code.
pub uninterp spec fn commitment_of(code: miden_objects::accounts::AccountCode) -> Seq<u64>;

/// The public key of a signing key, as a word of field elements.
pub uninterp spec fn public_key_of(key: miden_objects::crypto::dsa::rpo_falcon512::SecretKey) -> Seq<u64>;

/// The seed that `AccountId::get_account_seed` finds, searching from `init_seed`.
pub uninterp spec fn searched_seed(
    init_seed: Seq<u8>,
    account_type: AccountType,
    storage_type: AccountStorageType,
    code_commitment: Seq<u64>,
    storage_root: Seq<u64>,
) -> Seq<u64>;

/// The value held by each slot of a storage.
pub uninterp spec fn storage_slots(storage: miden_objects::accounts::AccountStorage) -> Map<u8, Seq<u64>>;

/// The slot values of the storage that `AccountStorage::new` builds from items with distinct
/// indices, given by index: each item's value at its index, and the commitment to the slot
/// layout at the reserved index. The order in which the items come plays no part.
pub uninterp spec fn storage_slots_for(items: Map<u8, SlotItem>) -> Map<u8, Seq<u64>>;

/// Whether `AccountStorage::new` accepts `items` with maps at `map_indices`: no item at the
/// reserved index 255, no index used twice, and maps exactly at the indices of map items.
pub open spec fn storage_items_ok(items: Seq<SlotItem>, map_indices: Set<u8>) -> bool {
    &&& forall|i: int| 0 <= i < items.len() ==> #[trigger] items[i].index != 255u8
    &&& forall|i: int, j: int| 0 <= i < items.len() && 0 <= j < items.len() && i != j
        ==> #[trigger] items[i].index != #[trigger] items[j].index
    &&& map_indices == Set::new(|k: u8| exists|i: int| 0 <= i < items.len()
        && #[trigger] items[i].index == k && items[i].kind is StorageMap)
}

/// The Merkle root over the values of all storage slots.
pub uninterp spec fn slots_root(slots: Map<u8, Seq<u64>>) -> Seq<u64>;

/// Relies on `AccountId::new`: it hashes seed, code commitment and storage root, and accepts
/// the first element of the digest only if the digest passes the proof-of-work check and the
/// element carries valid storage bits.
#[verifier::external_body]
pub(crate) fn derive_account_id(seed: Word, code_commitment: Word, storage_root: Word) -> (r: Result<AccountId, miden_objects::AccountError>)
    ensures
        match r {
            Ok(id) => derived_id(seed@, code_commitment@, storage_root@) == Some(id.value)
                && valid_storage_bits(id.value),
            Err(_) => derived_id(seed@, code_commitment@, storage_root@) is None,
        },
{
    miden_objects::accounts::AccountId::new(
        seed.map(Felt::new),
        Digest::new(code_commitment.map(Felt::new)),
        Digest::new(storage_root.map(Felt::new)),
    ).map(|id| AccountId { value: u64::from(id) })
}

/// Relies on `AccountId::get_account_seed`: without the `concurrent` feature it loops until it
/// finds a seed, so it returns only `Ok`; the seed depends on its arguments alone (the search is
/// a deterministic walk from `init_seed`), its derived digest passes the checks of
/// `AccountId::new` and whose identifier carries the requested tags.
#[verifier::external_body]
pub(crate) fn find_account_seed(
    init_seed: [u8; 32],
    account_type: AccountType,
    storage_type: AccountStorageType,
    code_commitment: Word,
    storage_root: Word,
) -> (r: Result<Word, miden_objects::AccountError>)
    ensures
        r is Ok,
        r matches Ok(seed) ==> seed@ == searched_seed(init_seed@, account_type, storage_type, code_commitment@, storage_root@),
        r matches Ok(seed) ==> derived_id(seed@, code_commitment@, storage_root@) matches Some(v)
            && account_type_of(v) == account_type && storage_type_of(v) == storage_type,
{
    let account_type = match account_type {
        AccountType::FungibleFaucet => miden_objects::accounts::AccountType::FungibleFaucet,
        AccountType::NonFungibleFaucet => miden_objects::accounts::AccountType::NonFungibleFaucet,
        AccountType::RegularAccountImmutableCode => miden_objects::accounts::AccountType::RegularAccountImmutableCode,
        AccountType::RegularAccountUpdatableCode => miden_objects::accounts::AccountType::RegularAccountUpdatableCode,
    };
    let storage_type = match storage_type {
        AccountStorageType::OnChain => miden_objects::accounts::AccountStorageType::OnChain,
        AccountStorageType::OffChain => miden_objects::accounts::AccountStorageType::OffChain,
    };
    let (cc, root) = (Digest::new(code_commitment.map(Felt::new)), Digest::new(storage_root.map(Felt::new)));
    miden_objects::accounts::AccountId::get_account_seed(init_seed, account_type, storage_type, cc, root)
        .map(|seed| seed.map(|f| f.as_int()))
}

/// Relies on `AccountCode::compile`: assembles account code source with the given assembler.
#[verifier::external_body]
pub(crate) fn compile_account_code(source: &str, assembler: miden_objects::assembly::Assembler) -> (r: Result<miden_objects::accounts::AccountCode, miden_objects::AccountError>)
{
    miden_objects::accounts::AccountCode::compile(source, assembler)
}

/// Relies on `AccountCode::commitment`: the commitment to compiled account code.
#[verifier::external_body]
pub(crate) fn code_commitment(code: &miden_objects::accounts::AccountCode) -> (r: Word)
    ensures
        r@ == commitment_of(*code),
{
    miden_objects::Word::from(code.commitment()).map(|f| f.as_int())
}

/// Relies on the derived `Clone` of `Assembler`.
pub assume_specification[ <miden_objects::assembly::Assembler as Clone>::clone ](a: &miden_objects::assembly::Assembler) -> miden_objects::assembly::Assembler;

/// Relies on the derived `Clone` of `Asset`.
pub assume_specification[ <miden_objects::assets::Asset as Clone>::clone ](a: &miden_objects::assets::Asset) -> miden_objects::assets::Asset;

/// Relies on the derived `Clone` of `StorageMap`.
pub assume_specification[ <miden_objects::accounts::StorageMap as Clone>::clone ](m: &miden_objects::accounts::StorageMap) -> miden_objects::accounts::StorageMap;

/// Relies on the derived `Clone` of `ChaCha20Rng`, which copies the generator's state.
pub assume_specification[ <rand_chacha::ChaCha20Rng as Clone>::clone ](rng: &rand_chacha::ChaCha20Rng) -> rand_chacha::ChaCha20Rng;

/// Relies on `AssetVault::new`: builds a vault from a list of assets; `Smt::with_entries` fails
/// only on a repeated key, so a list of at most one asset always succeeds.
#[verifier::external_body]
pub(crate) fn new_asset_vault(assets: &Vec<miden_objects::assets::Asset>) -> (r: Result<miden_objects::assets::AssetVault, miden_objects::AssetVaultError>)
    ensures
        assets@.len() <= 1 ==> r is Ok,
{
    miden_objects::assets::AssetVault::new(assets)
}

/// Relies on `AccountStorage::new`: it succeeds exactly when no item uses the reserved layout
/// index, no index is used twice, and the maps sit exactly at the map items' indices. Each item's
/// value, reduced to field elements, lands in the slot at its index, and the slots depend on the
/// items alone (the maps are only checked against the map items). A slot that no item sets
/// reads as the empty word, except the reserved one.
#[verifier::external_body]
pub(crate) fn new_account_storage(items: &Vec<SlotItem>, maps: &BTreeMap<u8, miden_objects::accounts::StorageMap>) -> (r: Result<miden_objects::accounts::AccountStorage, miden_objects::AccountError>)
    ensures
        r is Ok <==> storage_items_ok(items@, maps@.dom()),
        r matches Ok(s) ==> storage_slots(s) == storage_slots_for(items_by_index(items@)),
        r matches Ok(s) ==> forall|k: u8| k != 255u8 && !(exists|i: int| 0 <= i < items@.len() && #[trigger] items@[i].index == k)
            ==> #[trigger] storage_slots(s).contains_key(k) && storage_slots(s)[k] == EMPTY_WORD@,
        r matches Ok(s) ==> forall|i: int| 0 <= i < items@.len() ==> storage_slots(s).contains_key(#[trigger] items@[i].index)
            && storage_slots(s)[items@[i].index] == felt_word(items@[i].value),
{
    let items = items.iter().map(|i| match i.kind {
        SlotKind::Value => LedgerSlotItem::new_value(i.index, i.arity, i.value.map(Felt::new)),
        SlotKind::StorageMap => LedgerSlotItem::new_map(i.index, i.arity, i.value.map(Felt::new)),
        SlotKind::Array { depth } => LedgerSlotItem::new_array(i.index, i.arity, depth, i.value.map(Felt::new)),
    }).collect();
    miden_objects::accounts::AccountStorage::new(items, maps.clone())
}

/// Relies on `AccountStorage::root`: the root of the tree over all storage slots.
#[verifier::external_body]
pub(crate) fn storage_root(storage: &miden_objects::accounts::AccountStorage) -> (r: Word)
    ensures
        r@ == slots_root(storage_slots(*storage)),
{
    miden_objects::Word::from(storage.root()).map(|f| f.as_int())
}

/// Relies on `AccountStorage::get_item`: the value held by the slot at `index`.
#[verifier::external_body]
pub(crate) fn storage_item(storage: &miden_objects::accounts::AccountStorage, index: u8) -> (r: Word)
    ensures
        storage_slots(*storage).contains_key(index) ==> r@ == storage_slots(*storage)[index],
{
    miden_objects::Word::from(storage.get_item(index)).map(|f| f.as_int())
}

/// Relies on `AccountStorage::set_item`: the reserved layout index is refused; on success only
/// the slot at `index` changes, to the value reduced to field elements, and on failure nothing
/// does.
#[verifier::external_body]
pub(crate) fn set_storage_item(storage: &mut miden_objects::accounts::AccountStorage, index: u8, value: Word) -> (r: Result<Word, miden_objects::AccountError>)
    ensures
        index == 255u8 ==> r is Err,
        r is Ok ==> storage_slots(*final(storage)) == storage_slots(*old(storage)).insert(index, felt_word(value)),
        r is Err ==> storage_slots(*final(storage)) == storage_slots(*old(storage)),
{
    storage.set_item(index, value.map(Felt::new)).map(|w| w.map(|f| f.as_int()))
}

/// Relies on `SimpleSmt::leaves` of `AccountStorage::slots`: the tree keeps its non-empty
/// leaves in an ordered map, so each slot that holds a non-empty word comes once, with its value,
/// whose elements are read back in canonical form; `insert_value` drops empty leaves, so no
/// empty slot is listed.
#[verifier::external_body]
pub(crate) fn storage_leaves(storage: &miden_objects::accounts::AccountStorage) -> (r: Vec<(u8, Word)>)
    ensures
        forall|j: int| 0 <= j < r@.len() ==> storage_slots(*storage).contains_key(#[trigger] r@[j].0)
            && storage_slots(*storage)[r@[j].0] == r@[j].1@,
        forall|j: int| 0 <= j < r@.len() ==> felt_word(#[trigger] r@[j].1) == r@[j].1@ && r@[j].1@ != EMPTY_WORD@,
        forall|j: int, l: int| 0 <= j < r@.len() && 0 <= l < r@.len() && j != l ==> #[trigger] r@[j].0 != #[trigger] r@[l].0,
        forall|k: u8| storage_slots(*storage).contains_key(k) && storage_slots(*storage)[k] != EMPTY_WORD@
            ==> exists|j: int| 0 <= j < r@.len() && #[trigger] r@[j].0 == k,
{
    storage.slots().leaves().map(|(k, w)| (k as u8, w.map(|f| f.as_int()))).collect()
}

/// Relies on `Rng::gen` of `ChaCha20Rng`: 32 fresh random bytes.
#[verifier::external_body]
pub(crate) fn draw_seed_bytes(rng: &mut rand_chacha::ChaCha20Rng) -> (r: [u8; 32])
{
    rand::Rng::gen(rng)
}

/// Relies on `SecretKey::with_rng`: a fresh Falcon signing key drawn from `rng`.
#[verifier::external_body]
pub(crate) fn new_secret_key(rng: &mut rand_chacha::ChaCha20Rng) -> (r: miden_objects::crypto::dsa::rpo_falcon512::SecretKey)
{
    miden_objects::crypto::dsa::rpo_falcon512::SecretKey::with_rng(rng)
}

/// Relies on `SecretKey::public_key`: the public key of a signing key, as a word whose elements
/// are read back in canonical form.
#[verifier::external_body]
pub(crate) fn public_key_word(key: &miden_objects::crypto::dsa::rpo_falcon512::SecretKey) -> (r: Word)
    ensures
        r@ == public_key_of(*key),
        felt_word(r) == r@,
{
    let w: miden_objects::Word = key.public_key().into();
    w.map(|f| f.as_int())
}

/// Relies on `TransactionKernel::assembler` and `Assembler::with_debug_mode`: the assembler
/// that knows the transaction kernel and its libraries, with debug mode switched as asked.
#[verifier::external_body]
pub(crate) fn kernel_assembler(debug: bool) -> (r: miden_objects::assembly::Assembler)
{
    miden_lib::transaction::TransactionKernel::assembler().with_debug_mode(debug)
}

#[verifier::external_type_specification]
#[verifier::external_body]
pub struct ExNoteError(miden_objects::NoteError);

#[verifier::external_type_specification]
#[verifier::external_body]
pub struct ExNoteScript(miden_objects::notes::NoteScript);

#[verifier::external_type_specification]
#[verifier::external_body]
pub struct ExNoteAssets(miden_objects::notes::NoteAssets);

#[verifier::external_type_specification]
#[verifier::external_body]
pub struct ExNoteMetadata(miden_objects::notes::NoteMetadata);

#[verifier::external_type_specification]
#[verifier::external_body]
pub struct ExNoteInputs(miden_objects::notes::NoteInputs);

#[verifier::external_type_specification]
#[verifier::external_body]
pub struct ExNoteRecipient(miden_objects::notes::NoteRecipient);

#[verifier::external_type_specification]
#[verifier::external_body]
pub struct ExNote(miden_objects::notes::Note);

/// Relies on `NoteScript::compile`: assembles a note script with the given assembler.
#[verifier::external_body]
pub(crate) fn compile_note_script(source: &str, assembler: miden_objects::assembly::Assembler) -> (r: Result<miden_objects::notes::NoteScript, miden_objects::NoteError>)
{
    miden_objects::notes::NoteScript::compile(source, assembler)
}

/// The assets held by a note's asset list.
pub uninterp spec fn asset_list(assets: miden_objects::notes::NoteAssets) -> Seq<miden_objects::assets::Asset>;

/// The sender recorded in note metadata, as the identifier's value.
pub uninterp spec fn metadata_sender(metadata: miden_objects::notes::NoteMetadata) -> u64;

/// The note type recorded in note metadata.
pub uninterp spec fn metadata_note_type(metadata: miden_objects::notes::NoteMetadata) -> NoteType;

/// The tag recorded in note metadata.
pub uninterp spec fn metadata_tag(metadata: miden_objects::notes::NoteMetadata) -> u32;

/// The execution hint recorded in note metadata.
pub uninterp spec fn metadata_hint(metadata: miden_objects::notes::NoteMetadata) -> NoteExecutionHint;

/// The values held by note inputs, in canonical form.
pub uninterp spec fn input_values(inputs: miden_objects::notes::NoteInputs) -> Seq<u64>;

/// The serial number held by a note recipient.
pub uninterp spec fn recipient_serial_num(recipient: miden_objects::notes::NoteRecipient) -> Seq<u64>;

/// The script held by a note recipient.
pub uninterp spec fn recipient_script(recipient: miden_objects::notes::NoteRecipient) -> miden_objects::notes::NoteScript;

/// The inputs held by a note recipient.
pub uninterp spec fn recipient_inputs(recipient: miden_objects::notes::NoteRecipient) -> miden_objects::notes::NoteInputs;

/// The asset list held by a note.
pub uninterp spec fn note_assets_of(note: miden_objects::notes::Note) -> miden_objects::notes::NoteAssets;

/// The metadata held by a note.
pub uninterp spec fn note_metadata_of(note: miden_objects::notes::Note) -> miden_objects::notes::NoteMetadata;

/// The recipient held by a note.
pub uninterp spec fn note_recipient_of(note: miden_objects::notes::Note) -> miden_objects::notes::NoteRecipient;

/// Relies on `NoteAssets::new`: the assets a note carries, kept as given, failing only on more
/// than 256 assets or a duplicate, so a single asset always succeeds.
#[verifier::external_body]
pub(crate) fn new_note_assets(assets: Vec<miden_objects::assets::Asset>) -> (r: Result<miden_objects::notes::NoteAssets, miden_objects::NoteError>)
    ensures
        assets@.len() <= 1 ==> r is Ok,
        r matches Ok(a) ==> asset_list(a) == assets@,
{
    miden_objects::notes::NoteAssets::new(assets)
}

/// Relies on `NoteMetadata::new`: it only checks the tag against the note type, and a public
/// note passes that check with any tag; it keeps sender, type, tag and hint as given.
#[verifier::external_body]
pub(crate) fn new_note_metadata(sender: AccountId, note_type: NoteType, tag: u32, hint: NoteExecutionHint, aux: u64) -> (r: Result<miden_objects::notes::NoteMetadata, miden_objects::NoteError>)
    ensures
        note_type == NoteType::Public ==> r is Ok,
        r matches Ok(m) ==> metadata_sender(m) == felt_value(sender.value) && metadata_note_type(m) == note_type
            && metadata_tag(m) == tag && metadata_hint(m) == hint,
{
    let note_type = match note_type {
        NoteType::Private => miden_objects::notes::NoteType::Private,
        NoteType::Encrypted => miden_objects::notes::NoteType::Encrypted,
        NoteType::Public => miden_objects::notes::NoteType::Public,
    };
    let hint = match hint {
        NoteExecutionHint::Unspecified => miden_objects::notes::NoteExecutionHint::None,
        NoteExecutionHint::Always => miden_objects::notes::NoteExecutionHint::Always,
        NoteExecutionHint::AfterBlock { block_num } => miden_objects::notes::NoteExecutionHint::AfterBlock { block_num },
        NoteExecutionHint::OnBlockSlot { epoch_len, slot_len, slot_offset } => miden_objects::notes::NoteExecutionHint::OnBlockSlot { epoch_len, slot_len, slot_offset },
    };
    let sender = miden_objects::accounts::AccountId::new_unchecked(Felt::new(sender.value));
    miden_objects::notes::NoteMetadata::new(sender, note_type, tag.into(), hint, Felt::new(aux))
}

/// Relies on `NoteInputs::new`: it fails exactly when more than 128 values are given, and
/// otherwise keeps the values, unpadded.
#[verifier::external_body]
pub(crate) fn new_note_inputs(values: &Vec<u64>) -> (r: Result<miden_objects::notes::NoteInputs, miden_objects::NoteError>)
    ensures
        r is Ok <==> values@.len() <= 128,
        r matches Ok(i) ==> input_values(i) == felt_values(values@),
{
    miden_objects::notes::NoteInputs::new(values.iter().map(|v| Felt::new(*v)).collect())
}

/// Relies on `NoteRecipient::new`: it stores serial number, script and inputs as given.
#[verifier::external_body]
pub(crate) fn new_note_recipient(serial_num: Word, script: miden_objects::notes::NoteScript, inputs: miden_objects::notes::NoteInputs) -> (r: miden_objects::notes::NoteRecipient)
    ensures
        recipient_serial_num(r) == felt_word(serial_num),
        recipient_script(r) == script,
        recipient_inputs(r) == inputs,
{
    miden_objects::notes::NoteRecipient::new(serial_num.map(Felt::new), script, inputs)
}

/// Relies on `Note::new`: a note that holds the given assets, metadata and recipient.
#[verifier::external_body]
pub(crate) fn new_note(assets: miden_objects::notes::NoteAssets, metadata: miden_objects::notes::NoteMetadata, recipient: miden_objects::notes::NoteRecipient) -> (r: miden_objects::notes::Note)
    ensures
        note_assets_of(r) == assets,
        note_metadata_of(r) == metadata,
        note_recipient_of(r) == recipient,
{
    miden_objects::notes::Note::new(assets, metadata, recipient)
}

#[verifier::external_type_specification]
#[verifier::external_body]
pub struct ExTransactionScript(miden_objects::transaction::TransactionScript);

#[verifier::external_type_specification]
#[verifier::external_body]
pub struct ExTransactionScriptError(miden_objects::TransactionScriptError);

/// Relies on `TransactionScript::compile`: assembles a transaction script, here with no
/// script inputs.
#[verifier::external_body]
pub(crate) fn compile_transaction_script(source: &str, assembler: miden_objects::assembly::Assembler) -> (r: Result<miden_objects::transaction::TransactionScript, miden_objects::TransactionScriptError>)
{
    miden_objects::transaction::TransactionScript::compile(source, [], assembler)
}

} // verus!
