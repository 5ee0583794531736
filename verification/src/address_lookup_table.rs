//! Reading the addresses out of an address lookup table account.
//!
//! The account's data starts with 56 bytes of metadata; the addresses follow,
//! 32 bytes each.

use crate::state::Pubkey;
use vstd::prelude::*;

verus! {

/// The length of an address.
pub const PUBKEY_BYTES: usize = 32;

/// The maximum number of addresses that a lookup table can hold.
pub const LOOKUP_TABLE_MAX_ADDRESSES: usize = 256;

/// The serialized size of lookup table metadata.
pub const LOOKUP_TABLE_META_SIZE: usize = 56;

/// The largest size of a lookup table account.
pub const LOOKUP_TABLE_MAX_ACCOUNT_SIZE: usize = LOOKUP_TABLE_META_SIZE
    + LOOKUP_TABLE_MAX_ADDRESSES * PUBKEY_BYTES;

/// The bytes of the address `AddressLookupTab1e1111111111111111111111111`.
pub open spec fn spec_id() -> Seq<u8> {
    seq![
        2u8, 119u8, 166u8, 175u8, 151u8, 51u8, 155u8, 122u8, 200u8, 141u8, 24u8, 146u8, 201u8,
        4u8, 70u8, 245u8, 0u8, 2u8, 48u8, 146u8, 102u8, 246u8, 46u8, 83u8, 193u8, 24u8, 36u8,
        73u8, 130u8, 0u8, 0u8, 0u8,
    ]
}

/// The address of the program that owns lookup tables.
pub fn id() -> (key: Pubkey)
    ensures
        key@ == spec_id(),
{
    let key: Pubkey = [
        2, 119, 166, 175, 151, 51, 155, 122, 200, 141, 24, 146, 201, 4, 70, 245, 0, 2, 48, 146,
        102, 246, 46, 83, 193, 24, 36, 73, 130, 0, 0, 0,
    ];
    assert(key@ =~= spec_id());
    key
}

/// Whether data has the length of a lookup table: the metadata and a whole
/// number of addresses.
pub open spec fn is_table(table: Seq<u8>) -> bool {
    table.len() >= LOOKUP_TABLE_META_SIZE && (table.len() - LOOKUP_TABLE_META_SIZE) % (
    PUBKEY_BYTES as int) == 0
}

/// Bytes cut into keys of 32 bytes each, in order.
pub open spec fn spec_keys(bytes: Seq<u8>) -> Seq<Seq<u8>> {
    Seq::new(
        bytes.len() / (PUBKEY_BYTES as nat),
        |i: int| bytes.subrange(PUBKEY_BYTES * i, PUBKEY_BYTES * i + PUBKEY_BYTES),
    )
}

/// The addresses of a table: what follows the metadata, cut into keys.
pub open spec fn spec_addresses(table: Seq<u8>) -> Seq<Seq<u8>> {
    spec_keys(table.subrange(LOOKUP_TABLE_META_SIZE as int, table.len() as int))
}

/// The keys of a slice, each as its bytes.
pub open spec fn key_views(keys: Seq<Pubkey>) -> Seq<Seq<u8>> {
    Seq::new(keys.len(), |i: int| keys[i]@)
}

/// `bytemuck::try_cast_slice` from bytes to 32-byte arrays. An array of bytes
/// needs no alignment, so the cast fails only where the length is no
/// multiple of 32. Else it hands back the same memory as `len / 32` keys, key
/// `i` being bytes `32 * i` to `32 * i + 31`.
#[verifier::external_body]
fn try_cast_keys(bytes: &[u8]) -> (keys: Option<&[Pubkey]>)
    ensures
        keys is Some <==> bytes@.len() % (PUBKEY_BYTES as nat) == 0,
        keys matches Some(ks) ==> key_views(ks@) == spec_keys(bytes@),
{
    match bytemuck::try_cast_slice::<u8, [u8; 32]>(bytes) {
        Ok(keys) => Some(keys),
        Err(_) => None,
    }
}

/// Whether two keys are the same.
pub fn same_key(a: &Pubkey, b: &Pubkey) -> (same: bool)
    ensures
        same == (a@ == b@),
{
    let mut i: usize = 0;
    while i < PUBKEY_BYTES
        invariant
            i <= PUBKEY_BYTES,
            forall|j: int| 0 <= j < i ==> a@[j] == b@[j],
        decreases PUBKEY_BYTES - i,
    {
        if a[i] != b[i] {
            return false;
        }
        i = i + 1;
    }
    assert(a@ =~= b@);
    true
}

/// The addresses that a lookup table holds.
pub fn addresses(table: &[u8]) -> (keys: &[Pubkey])
    requires
        is_table(table@),
    ensures
        key_views(keys@) == spec_addresses(table@),
{
    let rest = &table[LOOKUP_TABLE_META_SIZE..table.len()];
    match try_cast_keys(rest) {
        Some(keys) => keys,
        None => vstd::pervasive::unreached(),
    }
}

/// Whether a lookup table holds the address.
pub fn contains(table: &[u8], pubkey: &Pubkey) -> (found: bool)
    requires
        is_table(table@),
    ensures
        found == spec_addresses(table@).contains(pubkey@),
{
    let keys = addresses(table);
    let mut i: usize = 0;
    while i < keys.len()
        invariant
            i <= keys@.len(),
            key_views(keys@) == spec_addresses(table@),
            forall|j: int| 0 <= j < i ==> spec_addresses(table@)[j] != pubkey@,
        decreases keys@.len() - i,
    {
        assert(key_views(keys@)[i as int] == keys@[i as int]@);
        if same_key(&keys[i], pubkey) {
            return true;
        }
        i = i + 1;
    }
    false
}

} // verus!
