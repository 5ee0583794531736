use mango_v4::address_lookup_table::{
    addresses, contains, id, same_key, LOOKUP_TABLE_MAX_ACCOUNT_SIZE, LOOKUP_TABLE_MAX_ADDRESSES,
    LOOKUP_TABLE_META_SIZE, PUBKEY_BYTES,
};
use std::str::FromStr;

fn key(seed: u8) -> [u8; 32] {
    let mut k = [0u8; 32];
    for (i, b) in k.iter_mut().enumerate() {
        *b = seed.wrapping_mul(31).wrapping_add(i as u8);
    }
    k
}

fn table(keys: &[[u8; 32]]) -> Vec<u8> {
    let mut data = vec![0xaa; LOOKUP_TABLE_META_SIZE];
    for k in keys {
        data.extend_from_slice(k);
    }
    data
}

#[test]
fn the_sizes_are_those_of_the_table_program() {
    assert_eq!(PUBKEY_BYTES, 32);
    assert_eq!(LOOKUP_TABLE_MAX_ADDRESSES, 256);
    assert_eq!(LOOKUP_TABLE_META_SIZE, 56);
    assert_eq!(LOOKUP_TABLE_MAX_ACCOUNT_SIZE, 56 + 256 * 32);
}

#[test]
fn the_id_is_the_address_of_the_table_program() {
    let parsed = solana_program::pubkey::Pubkey::from_str(
        "AddressLookupTab1e1111111111111111111111111",
    )
    .unwrap();
    assert_eq!(id(), parsed.to_bytes());
}

#[test]
fn a_table_of_metadata_alone_holds_no_address() {
    let data = table(&[]);
    assert!(addresses(&data).is_empty());
    assert!(!contains(&data, &key(1)));
}

#[test]
fn addresses_follow_the_metadata_in_order() {
    let keys = [key(1), key(2), key(3)];
    let data = table(&keys);
    assert_eq!(addresses(&data), &keys[..]);
}

#[test]
fn contains_finds_exactly_the_addresses_held() {
    let keys = [key(1), key(2), key(3)];
    let data = table(&keys);
    for k in keys.iter() {
        assert!(contains(&data, k));
    }
    assert!(!contains(&data, &key(4)));
    // The metadata is no address.
    assert!(!contains(&data, &[0xaa; 32]));
    // A key that differs in its last byte only is another key.
    let mut near = key(2);
    near[31] ^= 1;
    assert!(!contains(&data, &near));
}

#[test]
fn a_full_table_is_read() {
    let keys: Vec<[u8; 32]> = (0..=255u8).map(key).collect();
    let data = table(&keys);
    assert_eq!(data.len(), LOOKUP_TABLE_MAX_ACCOUNT_SIZE);
    assert_eq!(addresses(&data).len(), LOOKUP_TABLE_MAX_ADDRESSES);
    assert!(contains(&data, &key(255)));
}

#[test]
fn addresses_agree_with_a_cast_to_the_hosts_keys() {
    let keys = [key(9), key(8)];
    let data = table(&keys);
    let cast: &[solana_program::pubkey::Pubkey] =
        bytemuck::try_cast_slice(&data[LOOKUP_TABLE_META_SIZE..]).unwrap();
    let ours = addresses(&data);
    assert_eq!(cast.len(), ours.len());
    for (theirs, ours) in cast.iter().zip(ours.iter()) {
        assert_eq!(&theirs.to_bytes(), ours);
    }
}

#[test]
fn same_key_compares_all_32_bytes() {
    assert!(same_key(&key(5), &key(5)));
    for i in 0..32 {
        let mut other = key(5);
        other[i] = other[i].wrapping_add(1);
        assert!(!same_key(&key(5), &other));
    }
}
