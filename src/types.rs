use vstd::prelude::*;

verus! {

/// Four field elements, each held by its canonical integer value.
pub type Word = [u64; 4];

/// The prime modulus of the field that words are made of.
pub const FIELD_MODULUS: u64 = 0xFFFF_FFFF_0000_0001;

/// The field elements that a word stands for: each integer reduced modulo the field's prime.
pub open spec fn felt_word(w: Word) -> Seq<u64> {
    seq![
        (w[0] as int % FIELD_MODULUS as int) as u64,
        (w[1] as int % FIELD_MODULUS as int) as u64,
        (w[2] as int % FIELD_MODULUS as int) as u64,
        (w[3] as int % FIELD_MODULUS as int) as u64,
    ]
}

/// A field element given by any integer, in canonical form.
pub open spec fn felt_value(v: u64) -> u64 {
    (v as int % FIELD_MODULUS as int) as u64
}

/// A list of field elements given by any integers, in canonical form.
pub open spec fn felt_values(values: Seq<u64>) -> Seq<u64> {
    values.map_values(|v: u64| felt_value(v))
}

/// The word that every unset storage slot holds.
pub const EMPTY_WORD: Word = [0u64, 0u64, 0u64, 0u64];

/// Storage index reserved for the commitment to the storage layout.
pub const SLOT_LAYOUT_COMMITMENT_INDEX: u8 = 255;

/// The kind of account an identifier stands for.
#[derive(Debug, Clone, Copy, PartialEq, Eq, Structural)]
pub enum AccountType {
    FungibleFaucet,
    NonFungibleFaucet,
    RegularAccountImmutableCode,
    RegularAccountUpdatableCode,
}

/// Whether an account's state is kept on chain or off chain.
#[derive(Debug, Clone, Copy, PartialEq, Eq, Structural)]
pub enum AccountStorageType {
    OnChain,
    OffChain,
}

/// Two bits of an identifier, counted from bit 60, that hold the account type.
pub open spec fn type_bits(value: u64) -> u64 {
    (value >> 60u64) & 3u64
}

/// Two bits of an identifier, counted from bit 62, that hold the storage type.
pub open spec fn storage_bits(value: u64) -> u64 {
    value >> 62u64
}

/// The account type encoded in an identifier's value.
pub open spec fn account_type_of(value: u64) -> AccountType {
    let bits = type_bits(value);
    if bits == 0 {
        AccountType::RegularAccountImmutableCode
    } else if bits == 1 {
        AccountType::RegularAccountUpdatableCode
    } else if bits == 2 {
        AccountType::FungibleFaucet
    } else {
        AccountType::NonFungibleFaucet
    }
}

/// The storage bits of a well-formed identifier are `00` (on chain) or `10` (off chain).
pub open spec fn valid_storage_bits(value: u64) -> bool {
    storage_bits(value) == 0 || storage_bits(value) == 2
}

/// The storage type encoded in a well-formed identifier's value.
pub open spec fn storage_type_of(value: u64) -> AccountStorageType {
    if storage_bits(value) == 0 {
        AccountStorageType::OnChain
    } else {
        AccountStorageType::OffChain
    }
}

/// Identifier of an account: one field element whose top four bits carry its tags.
#[derive(Debug, Clone, Copy, PartialEq, Eq, Structural)]
pub struct AccountId {
    pub value: u64,
}

impl AccountId {
    /// The account type carried by the identifier.
    pub fn account_type(&self) -> (r: AccountType)
        ensures
            r == account_type_of(self.value),
    {
        let bits: u64 = (self.value >> 60u64) & 3u64;
        if bits == 0 {
            AccountType::RegularAccountImmutableCode
        } else if bits == 1 {
            AccountType::RegularAccountUpdatableCode
        } else if bits == 2 {
            AccountType::FungibleFaucet
        } else {
            AccountType::NonFungibleFaucet
        }
    }

    /// The storage type carried by the identifier.
    pub fn storage_type(&self) -> (r: AccountStorageType)
        ensures
            r == storage_type_of(self.value),
    {
        if (self.value >> 62u64) == 0 {
            AccountStorageType::OnChain
        } else {
            AccountStorageType::OffChain
        }
    }
}

/// The type of a storage slot.
#[derive(Debug, Clone, Copy, PartialEq, Eq, Structural)]
pub enum SlotKind {
    /// A plain value.
    Value,
    /// The root of a storage map held at the same index.
    StorageMap,
    /// The root of an array of `2^depth` values.
    Array { depth: u8 },
}

/// One storage slot to be placed at `index`.
#[derive(Debug, Clone, Copy)]
pub struct SlotItem {
    pub index: u8,
    pub kind: SlotKind,
    pub arity: u8,
    pub value: Word,
}

impl SlotItem {
    /// A value slot.
    pub fn new_value(index: u8, arity: u8, value: Word) -> (r: SlotItem)
        ensures
            r == (SlotItem { index, kind: SlotKind::Value, arity, value }),
    {
        SlotItem { index, kind: SlotKind::Value, arity, value }
    }

    /// A slot that holds the root of a storage map.
    pub fn new_map(index: u8, arity: u8, root: Word) -> (r: SlotItem)
        ensures
            r == (SlotItem { index, kind: SlotKind::StorageMap, arity, value: root }),
    {
        SlotItem { index, kind: SlotKind::StorageMap, arity, value: root }
    }

    /// A slot that holds the root of an array of `2^log_n` values.
    pub fn new_array(index: u8, arity: u8, log_n: u8, root: Word) -> (r: SlotItem)
        ensures
            r == (SlotItem { index, kind: SlotKind::Array { depth: log_n }, arity, value: root }),
    {
        SlotItem { index, kind: SlotKind::Array { depth: log_n }, arity, value: root }
    }
}

/// Who can see a note's details.
#[derive(Debug, Clone, Copy, PartialEq, Eq, Structural)]
pub enum NoteType {
    Private,
    Encrypted,
    Public,
}

/// When a note is expected to be consumable.
#[derive(Debug, Clone, Copy, PartialEq, Eq, Structural)]
pub enum NoteExecutionHint {
    /// No hint is given.
    Unspecified,
    Always,
    AfterBlock { block_num: u32 },
    OnBlockSlot { epoch_len: u8, slot_len: u8, slot_offset: u8 },
}

/// The items keyed by their index; where indices repeat, one of the items.
pub open spec fn items_by_index(items: Seq<SlotItem>) -> Map<u8, SlotItem> {
    Map::new(
        |k: u8| exists|i: int| 0 <= i < items.len() && #[trigger] items[i].index == k,
        |k: u8| items[choose|i: int| 0 <= i < items.len() && #[trigger] items[i].index == k],
    )
}

/// No two items share an index.
pub open spec fn distinct_indices(items: Seq<SlotItem>) -> bool {
    forall|i: int, j: int| 0 <= i < items.len() && 0 <= j < items.len() && i != j
        ==> #[trigger] items[i].index != #[trigger] items[j].index
}

/// The order of items with distinct indices does not matter: two such lists with the same items
/// give the same items by index, and so the same storage.
pub proof fn lemma_item_order_irrelevant(a: Seq<SlotItem>, b: Seq<SlotItem>)
    requires
        distinct_indices(a),
        distinct_indices(b),
        forall|x: SlotItem| a.contains(x) <==> b.contains(x),
    ensures
        items_by_index(a) == items_by_index(b),
{
    assert forall|k: u8| #[trigger] items_by_index(a).contains_key(k) <==> items_by_index(b).contains_key(k) by {
        if exists|i: int| 0 <= i < a.len() && #[trigger] a[i].index == k {
            let i = choose|i: int| 0 <= i < a.len() && #[trigger] a[i].index == k;
            assert(a.contains(a[i]));
            let j = choose|j: int| 0 <= j < b.len() && b[j] == a[i];
            assert(b[j].index == k);
        }
        if exists|i: int| 0 <= i < b.len() && #[trigger] b[i].index == k {
            let i = choose|i: int| 0 <= i < b.len() && #[trigger] b[i].index == k;
            assert(b.contains(b[i]));
            let j = choose|j: int| 0 <= j < a.len() && a[j] == b[i];
            assert(a[j].index == k);
        }
    }
    assert forall|k: u8| #[trigger] items_by_index(a).contains_key(k) implies items_by_index(a)[k] == items_by_index(b)[k] by {
        let i = choose|i: int| 0 <= i < a.len() && #[trigger] a[i].index == k;
        let j = choose|j: int| 0 <= j < b.len() && #[trigger] b[j].index == k;
        assert(a.contains(a[i]));
        let j2 = choose|j2: int| 0 <= j2 < b.len() && b[j2] == a[i];
        assert(b[j2].index == k);
        assert(j2 == j);
    }
    assert(items_by_index(a) =~= items_by_index(b));
}

} // verus!
