use vstd::prelude::*;

use crate::address::Address;
use crate::error::{ErrorCode, FundError};
use crate::ledger::{fees_within_policy, Fund};
use crate::token_account::{initialized_holding, read_token_account};

verus! {

/// Longest fund name `update_fund` accepts, in bytes.
pub const MAX_NAME_BYTES: usize = 50;

/// Longest fund description `update_fund` accepts, in bytes.
pub const MAX_DESCRIPTION_BYTES: usize = 200;

/// The addresses a new fund is bound to, and the bumps of its derived accounts.
#[derive(Clone, Copy, Debug, PartialEq, Eq, Structural)]
pub struct FundAccounts {
    pub manager: Address,
    pub base_mint: Address,
    pub vault: Address,
    pub shares_mint: Address,
    pub bump: u8,
    pub vault_bump: u8,
    pub shares_bump: u8,
}

/// Creates an empty fund: no shares, no assets, fees within policy.
pub fn initialize_fund(
    accounts: FundAccounts,
    name: String,
    description: String,
    management_fee: u16,
    performance_fee: u16,
    now: i64,
) -> (r: Result<Fund, FundError>)
    ensures
        r is Err <==> !fees_within_policy(management_fee, performance_fee),
        r matches Err(e) ==> e == FundError::InvalidFee,
        r matches Ok(fund) ==> {
            &&& fund.wf()
            &&& fund.manager == accounts.manager
            &&& fund.name@ == name@
            &&& fund.description@ == description@
            &&& fund.base_mint == accounts.base_mint
            &&& fund.vault == accounts.vault
            &&& fund.shares_mint == accounts.shares_mint
            &&& fund.management_fee == management_fee
            &&& fund.performance_fee == performance_fee
            &&& fund.total_shares == 0
            &&& fund.total_assets == 0
            &&& fund.last_fee_collection == now
            &&& fund.created_at == now
            &&& fund.bump == accounts.bump
            &&& fund.vault_bump == accounts.vault_bump
            &&& fund.shares_bump == accounts.shares_bump
        },
{
    if management_fee > crate::ledger::MAX_MANAGEMENT_FEE_BPS || performance_fee
        > crate::ledger::MAX_PERFORMANCE_FEE_BPS {
        return Err(FundError::InvalidFee);
    }
    Ok(
        Fund {
            manager: accounts.manager,
            name,
            description,
            base_mint: accounts.base_mint,
            vault: accounts.vault,
            shares_mint: accounts.shares_mint,
            management_fee,
            performance_fee,
            total_shares: 0,
            total_assets: 0,
            last_fee_collection: now,
            created_at: now,
            bump: accounts.bump,
            vault_bump: accounts.vault_bump,
            shares_bump: accounts.shares_bump,
        },
    )
}

/// The length of a string in bytes, as stored.
pub open spec fn byte_len(s: String) -> int {
    (vstd::utf8::encode_utf8(s@).len() as usize) as int
}

/// Why a settings update is refused, checked in this order.
pub open spec fn update_refusal(
    fund: Fund,
    manager: Address,
    name: Option<String>,
    description: Option<String>,
    management_fee: Option<u16>,
    performance_fee: Option<u16>,
) -> Option<FundError> {
    if manager != fund.manager {
        Some(FundError::InvalidInput)
    } else if name is Some && byte_len(name->Some_0) > MAX_NAME_BYTES {
        Some(FundError::InvalidAmount)
    } else if description is Some && byte_len(description->Some_0) > MAX_DESCRIPTION_BYTES {
        Some(FundError::InvalidAmount)
    } else if management_fee is Some && management_fee->Some_0
        > crate::ledger::MAX_MANAGEMENT_FEE_BPS {
        Some(FundError::InvalidFee)
    } else if performance_fee is Some && performance_fee->Some_0
        > crate::ledger::MAX_PERFORMANCE_FEE_BPS {
        Some(FundError::InvalidFee)
    } else {
        None
    }
}

/// The manager replaces any of the name, the description and the two fees; each given value
/// must be within its limit, else nothing changes.
pub fn update_fund(
    fund: &mut Fund,
    manager: &Address,
    name: Option<String>,
    description: Option<String>,
    management_fee: Option<u16>,
    performance_fee: Option<u16>,
) -> (r: Result<(), FundError>)
    ensures
        r is Err <==> update_refusal(
            *old(fund),
            *manager,
            name,
            description,
            management_fee,
            performance_fee,
        ) is Some,
        r matches Err(e) ==> {
            &&& update_refusal(
                *old(fund),
                *manager,
                name,
                description,
                management_fee,
                performance_fee,
            ) == Some(e)
            &&& *final(fund) == *old(fund)
        },
        r is Ok ==> *final(fund) == (Fund {
            name: if name is Some {
                name->Some_0
            } else {
                old(fund).name
            },
            description: if description is Some {
                description->Some_0
            } else {
                old(fund).description
            },
            management_fee: if management_fee is Some {
                management_fee->Some_0
            } else {
                old(fund).management_fee
            },
            performance_fee: if performance_fee is Some {
                performance_fee->Some_0
            } else {
                old(fund).performance_fee
            },
            ..*old(fund)
        }),
        old(fund).wf() && r is Ok ==> final(fund).wf(),
{
    if *manager != fund.manager {
        return Err(FundError::InvalidInput);
    }
    if let Some(n) = &name {
        if n.as_str().len() > MAX_NAME_BYTES {
            return Err(FundError::InvalidAmount);
        }
    }
    if let Some(d) = &description {
        if d.as_str().len() > MAX_DESCRIPTION_BYTES {
            return Err(FundError::InvalidAmount);
        }
    }
    if let Some(m) = management_fee {
        if m > crate::ledger::MAX_MANAGEMENT_FEE_BPS {
            return Err(FundError::InvalidFee);
        }
    }
    if let Some(p) = performance_fee {
        if p > crate::ledger::MAX_PERFORMANCE_FEE_BPS {
            return Err(FundError::InvalidFee);
        }
    }
    if let Some(n) = name {
        fund.name = n;
    }
    if let Some(d) = description {
        fund.description = d;
    }
    if let Some(m) = management_fee {
        fund.management_fee = m;
    }
    if let Some(p) = performance_fee {
        fund.performance_fee = p;
    }
    Ok(())
}

/// An externally attested value of a fund, valid until it expires.
#[derive(Clone, Copy, Debug, PartialEq, Eq, Structural)]
pub struct NavAttestation {
    pub fund: Address,
    /// In base-asset units.
    pub nav_value: u64,
    pub expires_at: i64,
    pub updated_at: i64,
    pub bump: u8,
}

/// Writes a fund's value attestation, stamped with the time of writing.
pub fn nav_attest_write(fund_key: Address, nav_value: u64, expires_at: i64, now: i64, bump: u8) -> (r:
    NavAttestation)
    ensures
        r == (NavAttestation {
            fund: fund_key,
            nav_value: nav_value,
            expires_at: expires_at,
            updated_at: now,
            bump: bump,
        }),
{
    NavAttestation { fund: fund_key, nav_value, expires_at, updated_at: now, bump }
}

/// The direction of a trade against the fund's base asset.
#[derive(Clone, Copy, Debug, PartialEq, Eq, Structural)]
pub enum TradeType {
    Buy,
    Sell,
}

/// Audit record of one trade by the manager.
pub struct Trade {
    pub fund: Address,
    pub trader: Address,
    pub trade_type: TradeType,
    pub input_mint: Address,
    pub output_mint: Address,
    pub amount_in: u64,
    pub amount_out: u64,
    pub timestamp: i64,
    pub signature: String,
}

/// Why a trade is not recorded, checked in this order.
pub open spec fn trade_refusal(
    fund: Fund,
    manager: Address,
    input_mint: Address,
    output_mint: Address,
    amount_in: u64,
    minimum_amount_out: u64,
) -> Option<FundError> {
    if manager != fund.manager {
        Some(FundError::InvalidInput)
    } else if amount_in == 0 || minimum_amount_out == 0 {
        Some(FundError::InvalidAmount)
    } else if input_mint != fund.base_mint && output_mint != fund.base_mint {
        Some(FundError::InvalidMint)
    } else {
        None
    }
}

/// Records a trade of the manager between the base asset and another: selling the base
/// asset when it is the input, buying it otherwise, with the minimum output as the amount
/// out.
pub fn execute_trade(
    fund: &Fund,
    fund_key: Address,
    manager: Address,
    input_mint: Address,
    output_mint: Address,
    amount_in: u64,
    minimum_amount_out: u64,
    signature: String,
    now: i64,
) -> (r: Result<Trade, FundError>)
    ensures
        r is Err <==> trade_refusal(
            *fund,
            manager,
            input_mint,
            output_mint,
            amount_in,
            minimum_amount_out,
        ) is Some,
        r matches Err(e) ==> trade_refusal(
            *fund,
            manager,
            input_mint,
            output_mint,
            amount_in,
            minimum_amount_out,
        ) == Some(e),
        r matches Ok(t) ==> {
            &&& t.fund == fund_key
            &&& t.trader == manager
            &&& t.trade_type == (if input_mint == fund.base_mint {
                TradeType::Sell
            } else {
                TradeType::Buy
            })
            &&& t.input_mint == input_mint
            &&& t.output_mint == output_mint
            &&& t.amount_in == amount_in
            &&& t.amount_out == minimum_amount_out
            &&& t.timestamp == now
            &&& t.signature@ == signature@
        },
{
    if manager != fund.manager {
        return Err(FundError::InvalidInput);
    }
    if amount_in == 0 || minimum_amount_out == 0 {
        return Err(FundError::InvalidAmount);
    }
    if input_mint != fund.base_mint && output_mint != fund.base_mint {
        return Err(FundError::InvalidMint);
    }
    let trade_type = if input_mint == fund.base_mint {
        TradeType::Sell
    } else {
        TradeType::Buy
    };
    Ok(
        Trade {
            fund: fund_key,
            trader: manager,
            trade_type,
            input_mint,
            output_mint,
            amount_in,
            amount_out: minimum_amount_out,
            timestamp: now,
            signature,
        },
    )
}

/// Moves `amount` lamports from the fund's own balance to another account. Returns the two
/// new balances.
pub fn pda_lamports_transfer(from_balance: u64, to_balance: u64, amount: u64) -> (r: Result<
    (u64, u64),
    ErrorCode,
>)
    ensures
        from_balance < amount ==> r == Err::<(u64, u64), ErrorCode>(ErrorCode::InsufficientFunds),
        from_balance >= amount && to_balance + amount > u64::MAX ==> r == Err::<
            (u64, u64),
            ErrorCode,
        >(ErrorCode::MathOverflow),
        from_balance >= amount && to_balance + amount <= u64::MAX ==> r == Ok::<
            (u64, u64),
            ErrorCode,
        >(((from_balance - amount) as u64, (to_balance + amount) as u64)),
{
    let from_after = match from_balance.checked_sub(amount) {
        Some(v) => v,
        None => return Err(ErrorCode::InsufficientFunds),
    };
    let to_after = match to_balance.checked_add(amount) {
        Some(v) => v,
        None => return Err(ErrorCode::MathOverflow),
    };
    Ok((from_after, to_after))
}

/// An account offered for closing: its address, whether the token program owns it, and
/// its data.
pub struct CloseCandidate {
    pub key: Address,
    pub token_program_owned: bool,
    pub data: Vec<u8>,
}

/// A candidate may be closed: an initialized token account of the fund, empty, and not the
/// account that receives the recovered lamports.
pub open spec fn closable(c: CloseCandidate, fund_key: Address, destination: Address) -> bool {
    let holding = initialized_holding(c.data@);
    &&& c.token_program_owned
    &&& c.key != destination
    &&& holding is Some
    &&& holding->Some_0.owner == fund_key
    &&& holding->Some_0.amount == 0
}

/// Candidate `i` is among `picked`.
pub open spec fn is_picked(picked: Seq<usize>, i: int) -> bool {
    exists|k: int| 0 <= k < picked.len() && picked[k] == i
}

/// The indices, in order, of the candidates that may be closed; the others are skipped.
pub fn close_zero_token_accounts(
    candidates: &Vec<CloseCandidate>,
    fund_key: &Address,
    destination: &Address,
) -> (r: Vec<usize>)
    ensures
        forall|k: int|
            0 <= k < r.len() ==> r[k] < candidates.len() && closable(
                candidates[r[k] as int],
                *fund_key,
                *destination,
            ),
        forall|k: int, l: int| 0 <= k < l < r.len() ==> r[k] < r[l],
        forall|i: int|
            0 <= i < candidates.len() && closable(candidates[i], *fund_key, *destination)
                ==> #[trigger] is_picked(r@, i),
{
    let mut picked: Vec<usize> = Vec::new();
    let mut i: usize = 0;
    while i < candidates.len()
        invariant
            0 <= i <= candidates.len(),
            forall|k: int|
                0 <= k < picked.len() ==> picked[k] < i && closable(
                    candidates[picked[k] as int],
                    *fund_key,
                    *destination,
                ),
            forall|k: int, l: int| 0 <= k < l < picked.len() ==> picked[k] < picked[l],
            forall|j: int|
                0 <= j < i && closable(candidates[j], *fund_key, *destination)
                    ==> #[trigger] is_picked(picked@, j),
        decreases candidates.len() - i,
    {
        let c = &candidates[i];
        let take = if c.token_program_owned && c.key != *destination {
            match read_token_account(&c.data) {
                Some(h) => h.owner == *fund_key && h.amount == 0,
                None => false,
            }
        } else {
            false
        };
        if take {
            let ghost before = picked@;
            picked.push(i);
            proof {
                assert(picked@ == before.push(i));
                assert forall|j: int|
                    0 <= j < i && closable(
                        candidates[j],
                        *fund_key,
                        *destination,
                    ) implies #[trigger] is_picked(picked@, j) by {
                    assert(is_picked(before, j));
                    let k = choose|k: int| 0 <= k < before.len() && before[k] == j;
                    assert(picked@[k] == before[k]);
                }
                assert(picked@[picked.len() - 1] == i);
                assert(is_picked(picked@, i as int));
            }
        }
        i = i + 1;
    }
    picked
}

} // verus!
