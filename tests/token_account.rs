use managed_funds::address::{Address, TokenHolding};
use managed_funds::token_account::{measured_balance, read_owned_holding, read_token_account, AccountOwner};

fn key_bytes(seed: u8) -> [u8; 32] {
    let mut b = [0u8; 32];
    for (i, x) in b.iter_mut().enumerate() {
        *x = seed.wrapping_add(i as u8);
    }
    b
}

fn layout(mint: [u8; 32], owner: [u8; 32], amount: u64, state: u8) -> Vec<u8> {
    let mut data = vec![0u8; 165];
    data[0..32].copy_from_slice(&mint);
    data[32..64].copy_from_slice(&owner);
    data[64..72].copy_from_slice(&amount.to_le_bytes());
    data[108] = state;
    data
}

#[test]
fn address_from_bytes_reads_both_halves_big_endian() {
    let a = Address::from_bytes(&key_bytes(0));
    assert_eq!(a.high, 0x000102030405060708090a0b0c0d0e0f);
    assert_eq!(a.low, 0x101112131415161718191a1b1c1d1e1f);
    assert_eq!(Address::from_bytes(&[0u8; 32]), Address::zero());
}

#[test]
fn initialized_token_account_is_read() {
    let data = layout(key_bytes(1), key_bytes(100), 123_456_789, 1);
    let expected = TokenHolding {
        owner: Address::from_bytes(&key_bytes(100)),
        mint: Address::from_bytes(&key_bytes(1)),
        amount: 123_456_789,
    };
    assert_eq!(read_token_account(&data), Some(expected));
    let frozen = layout(key_bytes(1), key_bytes(100), 5, 2);
    assert_eq!(read_token_account(&frozen).map(|h| h.amount), Some(5));
}

#[test]
fn unreadable_token_accounts_are_refused() {
    assert_eq!(read_token_account(&vec![0u8; 10]), None);
    assert_eq!(read_token_account(&layout(key_bytes(1), key_bytes(2), 1, 0)), None);
    assert_eq!(read_token_account(&layout(key_bytes(1), key_bytes(2), 1, 3)), None);
    let mut bad_tag = layout(key_bytes(1), key_bytes(2), 1, 1);
    bad_tag[72] = 2;
    assert_eq!(read_token_account(&bad_tag), None);
    let mut high_tag_byte = layout(key_bytes(1), key_bytes(2), 1, 1);
    high_tag_byte[130] = 1;
    assert_eq!(read_token_account(&high_tag_byte), None);
    let mut long = layout(key_bytes(1), key_bytes(2), 1, 1);
    long.push(0);
    assert_eq!(read_token_account(&long), None);
}

#[test]
fn owned_holding_reads_the_base_layout_of_either_program() {
    let mut extended = layout(key_bytes(3), key_bytes(4), 77, 1);
    extended.extend_from_slice(&[2, 0, 0, 0, 9, 9]);
    assert_eq!(read_owned_holding(AccountOwner::Token2022Program, &extended).map(|h| h.amount), Some(77));
    assert_eq!(read_owned_holding(AccountOwner::TokenProgram, &extended).map(|h| h.amount), Some(77));
    let uninitialized = layout(key_bytes(3), key_bytes(4), 8, 0);
    assert_eq!(read_owned_holding(AccountOwner::TokenProgram, &uninitialized).map(|h| h.amount), Some(8));
    assert_eq!(read_owned_holding(AccountOwner::Other, &extended), None);
    assert_eq!(read_owned_holding(AccountOwner::TokenProgram, &vec![0u8; 164]), None);
}

#[test]
fn measured_balance_falls_back_to_lamports() {
    let data = layout(key_bytes(3), key_bytes(4), 900, 1);
    assert_eq!(measured_balance(AccountOwner::TokenProgram, &data, 5), 900);
    assert_eq!(measured_balance(AccountOwner::Other, &data, 5), 5);
    assert_eq!(measured_balance(AccountOwner::TokenProgram, &vec![], 5), 5);
}
