use vstd::prelude::*;
use crate::error::ErrorCode;

verus! {

/// A 32-byte account address.
#[derive(Clone, Copy, Debug, PartialEq, Eq, Hash)]
pub struct AccountKey {
    pub bytes: [u8; 32],
}

/// The configuration of an honorary fee position.
#[derive(Clone, Copy, Debug, PartialEq, Eq)]
pub struct ConfigAccount {
    pub pool_id: AccountKey,
    pub quote_mint: AccountKey,
    pub base_mint: AccountKey,
    pub position_id: AccountKey,
    pub tick_lower: i32,
    pub tick_upper: i32,
    pub creation_ts: i64,
    pub bump: u8,
}

/// An investor of a page: the vesting stream that holds its locked balance
/// and the token account its payouts go to.
#[derive(Clone, Copy, Debug, PartialEq, Eq)]
pub struct InvestorRecord {
    pub stream_pubkey: AccountKey,
    pub investor_quote_ata: AccountKey,
}

/// Builds the configuration of an honorary position over the tick range
/// `[tick_lower, tick_upper)`, which must not be empty.
pub fn initialize_honorary_position(
    pool_id: AccountKey,
    quote_mint: AccountKey,
    base_mint: AccountKey,
    position_id: AccountKey,
    tick_lower: i32,
    tick_upper: i32,
    creation_ts: i64,
    bump: u8,
) -> (r: Result<ConfigAccount, ErrorCode>)
    ensures
        tick_lower >= tick_upper ==> r == Err::<ConfigAccount, ErrorCode>(ErrorCode::InvalidTickRange),
        tick_lower < tick_upper ==> r == Ok::<ConfigAccount, ErrorCode>(
            ConfigAccount {
                pool_id,
                quote_mint,
                base_mint,
                position_id,
                tick_lower,
                tick_upper,
                creation_ts,
                bump,
            },
        ),
{
    if tick_lower >= tick_upper {
        return Err(ErrorCode::InvalidTickRange);
    }
    Ok(
        ConfigAccount {
            pool_id,
            quote_mint,
            base_mint,
            position_id,
            tick_lower,
            tick_upper,
            creation_ts,
            bump,
        },
    )
}

} // verus!
