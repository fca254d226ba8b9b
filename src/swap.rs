use vstd::prelude::*;

use crate::address::{Address, TokenHolding};
use crate::error::FundError;
use crate::ledger::Fund;

verus! {

/// One account of a forwarded call, with the flags the callee sees.
#[derive(Clone, Copy, Debug, PartialEq, Eq, Structural)]
pub struct AccountMetaView {
    pub key: Address,
    pub is_signer: bool,
    pub is_writable: bool,
}

/// An allow-list that is either not configured (`None`: anything passes) or closed
/// (`Some`: only the addresses it names pass).
pub open spec fn permits(list: Option<Seq<Address>>, key: Address) -> bool {
    match list {
        None => true,
        Some(keys) => keys.contains(key),
    }
}

pub open spec fn list_view(list: &Option<Vec<Address>>) -> Option<Seq<Address>> {
    match list {
        None => None,
        Some(v) => Some(v@),
    }
}

/// Whether `list` lets `key` through.
pub fn allow_list_permits(list: &Option<Vec<Address>>, key: &Address) -> (r: bool)
    ensures
        r == permits(list_view(list), *key),
{
    match list {
        None => true,
        Some(keys) => {
            let mut i: usize = 0;
            while i < keys.len()
                invariant
                    0 <= i <= keys.len(),
                    list_view(list) == Some(keys@),
                    forall|j: int| 0 <= j < i ==> keys@[j] != *key,
                decreases keys.len() - i,
            {
                if keys[i] == *key {
                    proof {
                        assert(keys@[i as int] == *key);
                        assert(keys@.contains(*key));
                    }
                    return true;
                }
                i = i + 1;
            }
            false
        },
    }
}

/// Whether every executable account of a forwarded call is let through by `programs`.
pub fn executables_permitted(programs: &Option<Vec<Address>>, executables: &Vec<Address>) -> (r:
    bool)
    ensures
        r == (forall|i: int|
            0 <= i < executables.len() ==> permits(list_view(programs), executables@[i])),
{
    let mut i: usize = 0;
    while i < executables.len()
        invariant
            0 <= i <= executables.len(),
            forall|j: int| 0 <= j < i ==> permits(list_view(programs), executables@[j]),
        decreases executables.len() - i,
    {
        if !allow_list_permits(programs, &executables[i]) {
            return false;
        }
        i = i + 1;
    }
    true
}

/// What a swap delivered, measured by the destination's balance before and after.
pub open spec fn swap_refusal(pre_balance: u64, post_balance: u64, minimum_out: u64) -> Option<
    FundError,
> {
    if post_balance < pre_balance {
        Some(FundError::MathOverflow)
    } else if post_balance - pre_balance < minimum_out {
        Some(FundError::SlippageExceeded)
    } else {
        None
    }
}

/// The amount a swap delivered (`post - pre`), refused when the balance fell or the
/// amount is below `minimum_out`. Nothing the external call reports is trusted.
pub fn settle_swap(pre_balance: u64, post_balance: u64, minimum_out: u64) -> (r: Result<
    u64,
    FundError,
>)
    ensures
        r == (match swap_refusal(pre_balance, post_balance, minimum_out) {
            Some(e) => Err::<u64, FundError>(e),
            None => Ok((post_balance - pre_balance) as u64),
        }),
        r matches Ok(received) ==> received >= minimum_out,
{
    let received = match post_balance.checked_sub(pre_balance) {
        Some(v) => v,
        None => return Err(FundError::MathOverflow),
    };
    if received < minimum_out {
        return Err(FundError::SlippageExceeded);
    }
    Ok(received)
}

/// The account list of a forwarded call with `authority` flagged as a signer; every other
/// account keeps its flags, and the order is kept.
pub fn mark_authority_signer(accounts: &Vec<AccountMetaView>, authority: &Address) -> (r: Vec<
    AccountMetaView,
>)
    ensures
        r.len() == accounts.len(),
        forall|i: int|
            0 <= i < accounts.len() ==> r[i] == (AccountMetaView {
                is_signer: accounts[i].is_signer || accounts[i].key == *authority,
                ..accounts[i]
            }),
{
    let mut out: Vec<AccountMetaView> = Vec::new();
    let mut i: usize = 0;
    while i < accounts.len()
        invariant
            0 <= i <= accounts.len(),
            out.len() == i,
            forall|j: int|
                0 <= j < i ==> out[j] == (AccountMetaView {
                    is_signer: accounts[j].is_signer || accounts[j].key == *authority,
                    ..accounts[j]
                }),
        decreases accounts.len() - i,
    {
        let a = accounts[i];
        out.push(
            AccountMetaView {
                key: a.key,
                is_signer: a.is_signer || a.key == *authority,
                is_writable: a.is_writable,
            },
        );
        i = i + 1;
    }
    out
}

/// Why the manager may not forward a rebalancing swap, checked in this order.
pub open spec fn manager_swap_refusal(
    fund: Fund,
    fund_key: Address,
    manager: Address,
    minimum_out: u64,
    router: Address,
    routers: Option<Seq<Address>>,
    destination: Option<TokenHolding>,
    output_mint: Address,
    programs: Option<Seq<Address>>,
    executables: Seq<Address>,
) -> Option<FundError> {
    if manager != fund.manager {
        Some(FundError::InvalidInput)
    } else if minimum_out == 0 {
        Some(FundError::InvalidAmount)
    } else if !permits(routers, router) {
        Some(FundError::InvalidInput)
    } else if destination is Some && destination->Some_0.owner != fund_key {
        Some(FundError::InvalidInput)
    } else if destination is Some && destination->Some_0.mint != output_mint {
        Some(FundError::InvalidMint)
    } else if exists|i: int| 0 <= i < executables.len() && !permits(programs, executables[i]) {
        Some(FundError::InvalidInput)
    } else {
        None
    }
}

/// The checks made before the manager's rebalancing swap is forwarded: the manager signs,
/// a positive minimum output is set, the router and every executable account are allowed,
/// and a token destination belongs to the fund and holds `output_mint`.
pub fn check_manager_swap(
    fund: &Fund,
    fund_key: &Address,
    manager: &Address,
    minimum_out: u64,
    router: &Address,
    routers: &Option<Vec<Address>>,
    destination: &Option<TokenHolding>,
    output_mint: &Address,
    programs: &Option<Vec<Address>>,
    executables: &Vec<Address>,
) -> (r: Result<(), FundError>)
    ensures
        r == (match manager_swap_refusal(
            *fund,
            *fund_key,
            *manager,
            minimum_out,
            *router,
            list_view(routers),
            *destination,
            *output_mint,
            list_view(programs),
            executables@,
        ) {
            Some(e) => Err::<(), FundError>(e),
            None => Ok(()),
        }),
{
    if *manager != fund.manager {
        return Err(FundError::InvalidInput);
    }
    if minimum_out == 0 {
        return Err(FundError::InvalidAmount);
    }
    if !allow_list_permits(routers, router) {
        return Err(FundError::InvalidInput);
    }
    if let Some(dest) = destination {
        if dest.owner != *fund_key {
            return Err(FundError::InvalidInput);
        }
        if dest.mint != *output_mint {
            return Err(FundError::InvalidMint);
        }
    }
    if !executables_permitted(programs, executables) {
        return Err(FundError::InvalidInput);
    }
    Ok(())
}

/// The manager's rebalancing swap: the checks of `check_manager_swap`, then the amount
/// delivered to the destination, measured from its balances around the forwarded call.
pub fn defund_swap(
    fund: &Fund,
    fund_key: &Address,
    manager: &Address,
    minimum_out: u64,
    router: &Address,
    routers: &Option<Vec<Address>>,
    destination: &Option<TokenHolding>,
    output_mint: &Address,
    programs: &Option<Vec<Address>>,
    executables: &Vec<Address>,
    pre_balance: u64,
    post_balance: u64,
) -> (r: Result<u64, FundError>)
    ensures
        r == (match manager_swap_refusal(
            *fund,
            *fund_key,
            *manager,
            minimum_out,
            *router,
            list_view(routers),
            *destination,
            *output_mint,
            list_view(programs),
            executables@,
        ) {
            Some(e) => Err::<u64, FundError>(e),
            None => match swap_refusal(pre_balance, post_balance, minimum_out) {
                Some(e) => Err(e),
                None => Ok((post_balance - pre_balance) as u64),
            },
        }),
{
    match check_manager_swap(
        fund,
        fund_key,
        manager,
        minimum_out,
        router,
        routers,
        destination,
        output_mint,
        programs,
        executables,
    ) {
        Ok(()) => {},
        Err(e) => return Err(e),
    }
    settle_swap(pre_balance, post_balance, minimum_out)
}

/// The manager may act on a fund-owned token account: the manager is the fund's and the
/// account belongs to the fund.
pub open spec fn custody_refusal(fund: Fund, fund_key: Address, manager: Address, owner: Address) -> Option<FundError> {
    if manager != fund.manager {
        Some(FundError::InvalidInput)
    } else if owner != fund_key {
        Some(FundError::InvalidInput)
    } else {
        None
    }
}

/// Authorizes the manager as delegate for `amount` on a fund-owned token account.
/// Returns the amount to approve.
pub fn pda_token_approve(
    fund: &Fund,
    fund_key: &Address,
    manager: &Address,
    source: &TokenHolding,
    amount: u64,
) -> (r: Result<u64, FundError>)
    ensures
        r == (match custody_refusal(*fund, *fund_key, *manager, source.owner) {
            Some(e) => Err::<u64, FundError>(e),
            None => Ok(amount),
        }),
{
    if *manager != fund.manager || source.owner != *fund_key {
        return Err(FundError::InvalidInput);
    }
    Ok(amount)
}

/// Allows the manager to revoke any delegate on a fund-owned token account.
pub fn pda_token_revoke(fund: &Fund, fund_key: &Address, manager: &Address, source: &TokenHolding) -> (r: Result<(), FundError>)
    ensures
        r == (match custody_refusal(*fund, *fund_key, *manager, source.owner) {
            Some(e) => Err::<(), FundError>(e),
            None => Ok(()),
        }),
{
    if *manager != fund.manager || source.owner != *fund_key {
        return Err(FundError::InvalidInput);
    }
    Ok(())
}

/// Allows the manager to move tokens between two fund-owned accounts of the same asset.
pub fn pda_token_transfer(
    fund: &Fund,
    fund_key: &Address,
    manager: &Address,
    from: &TokenHolding,
    to: &TokenHolding,
) -> (r: Result<(), FundError>)
    ensures
        r is Ok <==> (manager == fund.manager && from.owner == *fund_key && to.owner == *fund_key
            && from.mint == to.mint),
        r matches Err(e) ==> e == FundError::InvalidInput,
{
    if *manager != fund.manager || from.owner != *fund_key || to.owner != *fund_key || from.mint
        != to.mint {
        return Err(FundError::InvalidInput);
    }
    Ok(())
}

} // verus!
