use vstd::prelude::*;

use anchor_lang::solana_program::program_pack::Pack;
use anchor_spl::token::spl_token;
use anchor_spl::token_2022::spl_token_2022;

use crate::address::{address_from_bytes, Address, TokenHolding};

verus! {

/// Length of the base token-account layout, in bytes.
pub const TOKEN_ACCOUNT_LEN: usize = 165;

/// The value of bytes read little-endian.
pub open spec fn le_value(s: Seq<u8>) -> nat
    decreases s.len(),
{
    if s.len() == 0 {
        0
    } else {
        s[0] as nat + 256 * le_value(s.drop_first())
    }
}

/// A four-byte presence tag of the layout reads `0 0 0 0` (absent) or `1 0 0 0` (present).
pub open spec fn tag_valid(data: Seq<u8>, at: int) -> bool {
    &&& data[at] == 0 || data[at] == 1
    &&& data[at + 1] == 0
    &&& data[at + 2] == 0
    &&& data[at + 3] == 0
}

/// The first 165 bytes hold a readable base layout: mint (0..32), owner (32..64), amount
/// (64..72, little-endian), delegate (tag at 72), state (108: 0 uninitialized, 1
/// initialized, 2 frozen), native reserve (tag at 109), delegated amount (121..129) and close
/// authority (tag at 129).
pub open spec fn layout_readable(data: Seq<u8>) -> bool {
    &&& data.len() >= TOKEN_ACCOUNT_LEN
    &&& tag_valid(data, 72)
    &&& data[108] <= 2
    &&& tag_valid(data, 109)
    &&& tag_valid(data, 129)
}

/// The layout is exactly one base account, readable, and initialized.
pub open spec fn layout_initialized(data: Seq<u8>) -> bool {
    &&& data.len() == TOKEN_ACCOUNT_LEN
    &&& layout_readable(data)
    &&& data[108] != 0
}

/// The fields of a base layout as they are stored.
pub struct RawTokenAccount {
    pub mint: [u8; 32],
    pub owner: [u8; 32],
    pub amount: u64,
}

/// The raw fields hold what the layout of `data` stores.
pub open spec fn raw_matches(raw: RawTokenAccount, data: Seq<u8>) -> bool {
    &&& raw.mint@ == data.subrange(0, 32)
    &&& raw.owner@ == data.subrange(32, 64)
    &&& raw.amount == le_value(data.subrange(64, 72))
}

/// What the logic reads of the base layout of `data`.
pub open spec fn holding_in(data: Seq<u8>) -> TokenHolding {
    TokenHolding {
        owner: address_from_bytes(data.subrange(32, 64)),
        mint: address_from_bytes(data.subrange(0, 32)),
        amount: le_value(data.subrange(64, 72)) as u64,
    }
}

/// Relies on spl-token's `Account::unpack`: it accepts exactly a 165-byte slice whose base
/// layout reads and whose state is not uninitialized, and returns the stored fields.
#[verifier::external_body]
fn spl_token_unpack(data: &[u8]) -> (r: Option<RawTokenAccount>)
    ensures
        r is Some <==> layout_initialized(data@),
        r matches Some(raw) ==> raw_matches(raw, data@),
{
    match spl_token::state::Account::unpack(data) {
        Ok(a) => Some(RawTokenAccount { mint: a.mint.to_bytes(), owner: a.owner.to_bytes(), amount: a.amount }),
        Err(_) => None,
    }
}

/// Relies on spl-token's `Account::unpack_from_slice`: it reads the first 165 bytes (it panics
/// on a shorter slice), accepts them when the base layout reads, and returns the stored fields.
#[verifier::external_body]
fn spl_token_unpack_prefix(data: &[u8]) -> (r: Option<RawTokenAccount>)
    requires
        data@.len() >= TOKEN_ACCOUNT_LEN,
    ensures
        r is Some <==> layout_readable(data@),
        r matches Some(raw) ==> raw_matches(raw, data@),
{
    match spl_token::state::Account::unpack_from_slice(data) {
        Ok(a) => Some(RawTokenAccount { mint: a.mint.to_bytes(), owner: a.owner.to_bytes(), amount: a.amount }),
        Err(_) => None,
    }
}

/// Relies on spl-token-2022's `Account::unpack_from_slice`: the same base layout as spl-token,
/// read from the first 165 bytes (it panics on a shorter slice).
#[verifier::external_body]
fn token_2022_unpack_prefix(data: &[u8]) -> (r: Option<RawTokenAccount>)
    requires
        data@.len() >= TOKEN_ACCOUNT_LEN,
    ensures
        r is Some <==> layout_readable(data@),
        r matches Some(raw) ==> raw_matches(raw, data@),
{
    match spl_token_2022::state::Account::unpack_from_slice(data) {
        Ok(a) => Some(RawTokenAccount { mint: a.mint.to_bytes(), owner: a.owner.to_bytes(), amount: a.amount }),
        Err(_) => None,
    }
}

/// The holding the raw fields of `data`'s layout describe.
fn holding_from_raw(raw: &RawTokenAccount, data: Ghost<Seq<u8>>) -> (r: TokenHolding)
    requires
        raw_matches(*raw, data@),
        data@.len() >= 72,
    ensures
        r == holding_in(data@),
{
    TokenHolding {
        owner: Address::from_bytes(&raw.owner),
        mint: Address::from_bytes(&raw.mint),
        amount: raw.amount,
    }
}

/// The holding an account of the token program describes, when its data is one initialized
/// base account.
pub open spec fn initialized_holding(data: Seq<u8>) -> Option<TokenHolding> {
    if layout_initialized(data) {
        Some(holding_in(data))
    } else {
        None
    }
}

/// Reads the data of a token-program account as an initialized token account.
pub fn read_token_account(data: &Vec<u8>) -> (r: Option<TokenHolding>)
    ensures
        r == initialized_holding(data@),
{
    match spl_token_unpack(data.as_slice()) {
        Some(raw) => Some(holding_from_raw(&raw, Ghost(data@))),
        None => None,
    }
}

/// Which program owns an account.
#[derive(Clone, Copy, Debug, PartialEq, Eq, Structural)]
pub enum AccountOwner {
    TokenProgram,
    Token2022Program,
    Other,
}

/// The holding an account describes when a token program owns it and the first 165 bytes of
/// its data read as a base account; `None` for any other account.
pub open spec fn owned_holding(owner: AccountOwner, data: Seq<u8>) -> Option<TokenHolding> {
    if owner != AccountOwner::Other && layout_readable(data) {
        Some(holding_in(data))
    } else {
        None
    }
}

/// Reads an account as a token account of either token program, from its base layout.
pub fn read_owned_holding(owner: AccountOwner, data: &Vec<u8>) -> (r: Option<TokenHolding>)
    ensures
        r == owned_holding(owner, data@),
{
    if data.len() < TOKEN_ACCOUNT_LEN {
        return None;
    }
    let raw = match owner {
        AccountOwner::TokenProgram => spl_token_unpack_prefix(data.as_slice()),
        AccountOwner::Token2022Program => token_2022_unpack_prefix(data.as_slice()),
        AccountOwner::Other => None,
    };
    match raw {
        Some(raw) => Some(holding_from_raw(&raw, Ghost(data@))),
        None => None,
    }
}

/// The balance a swap is measured on: the token amount of a token account, else the account's
/// lamports.
pub fn measured_balance(owner: AccountOwner, data: &Vec<u8>, lamports: u64) -> (r: u64)
    ensures
        r == (match owned_holding(owner, data@) {
            Some(h) => h.amount,
            None => lamports,
        }),
{
    match read_owned_holding(owner, data) {
        Some(h) => h.amount,
        None => lamports,
    }
}

} // verus!
