//! The records the fund keeps: the pool, each holder, and fixed income holdings.
use vstd::prelude::*;

verus! {

/// A 32-byte account address (owner, mint, vault or issuer).
pub type Address = [u8; 32];

/// Whether `key` is the all-zero address, which marks a record not yet claimed.
pub open spec fn is_unset_address(key: Address) -> bool {
    forall|i: int| 0 <= i < 32 ==> #[trigger] key@[i] == 0u8
}

/// Tests whether `key` is the all-zero address.
pub fn address_is_unset(key: &Address) -> (r: bool)
    ensures
        r == is_unset_address(*key),
{
    let mut i: usize = 0;
    while i < 32
        invariant
            i <= 32,
            key@.len() == 32,
            forall|j: int| 0 <= j < i ==> #[trigger] key@[j] == 0u8,
        decreases 32 - i,
    {
        if key[i] != 0 {
            return false;
        }
        i = i + 1;
    }
    true
}

/// The pool's single ledger record.
#[derive(Debug, Clone, Copy)]
pub struct FundState {
    /// Administrative authority.
    pub admin_authority: Address,
    /// Mint of the fund token.
    pub fund_token_mint: Address,
    /// Mint of the deposit asset.
    pub usdc_mint: Address,
    /// Vault that holds deposited cash.
    pub usdc_vault: Address,
    /// Vault for fixed income investments.
    pub treasury_vault: Address,
    /// Total assets under management (8 decimals): cash plus fixed income.
    pub total_assets: u64,
    /// Fund tokens outstanding (8 decimals).
    pub total_shares: u64,
    /// Value of one fund token (8 decimals); 100_000_000 is $1.00.
    pub nav_per_share: u64,
    /// Time of the last NAV mark.
    pub last_nav_update: i64,
    /// Cash held in the deposit asset (6 decimals).
    pub cash_reserves: u64,
    /// Marked value of the fixed income holdings (8 decimals).
    pub fixed_income_value: u64,
    /// Annual management fee in basis points.
    pub management_fee_bps: u16,
    /// Target share of assets kept as cash, in percent.
    pub target_liquidity_ratio: u8,
    /// Whether deposits and withdrawals are halted.
    pub is_paused: bool,
    /// Time the fund was set up.
    pub inception_date: i64,
    /// Profit handed to holders through NAV marks so far (8 decimals).
    pub total_yield_distributed: u64,
    /// Number of distinct depositors.
    pub total_depositors: u32,
    /// Storage bump of the record.
    pub bump: u8,
}

/// Initial NAV per share ($1.00).
pub const INITIAL_NAV: u64 = 100_000_000;

/// Default cash target, in percent.
pub const DEFAULT_LIQUIDITY_RATIO: u8 = 25;

/// Whether every field of `f` holds its starting value.
pub open spec fn is_fresh_fund(f: FundState) -> bool {
    &&& is_unset_address(f.admin_authority)
    &&& is_unset_address(f.fund_token_mint)
    &&& is_unset_address(f.usdc_mint)
    &&& is_unset_address(f.usdc_vault)
    &&& is_unset_address(f.treasury_vault)
    &&& f.total_assets == 0
    &&& f.total_shares == 0
    &&& f.nav_per_share == INITIAL_NAV
    &&& f.last_nav_update == 0
    &&& f.cash_reserves == 0
    &&& f.fixed_income_value == 0
    &&& f.management_fee_bps == 0
    &&& f.target_liquidity_ratio == DEFAULT_LIQUIDITY_RATIO
    &&& !f.is_paused
    &&& f.inception_date == 0
    &&& f.total_yield_distributed == 0
    &&& f.total_depositors == 0
    &&& f.bump == 0
}

impl Default for FundState {
    fn default() -> (r: Self)
        ensures
            is_fresh_fund(r),
    {
        FundState {
            admin_authority: [0u8; 32],
            fund_token_mint: [0u8; 32],
            usdc_mint: [0u8; 32],
            usdc_vault: [0u8; 32],
            treasury_vault: [0u8; 32],
            total_assets: 0,
            total_shares: 0,
            nav_per_share: INITIAL_NAV,
            last_nav_update: 0,
            cash_reserves: 0,
            fixed_income_value: 0,
            management_fee_bps: 0,
            target_liquidity_ratio: DEFAULT_LIQUIDITY_RATIO,
            is_paused: false,
            inception_date: 0,
            total_yield_distributed: 0,
            total_depositors: 0,
            bump: 0,
        }
    }
}


/// One depositor's holding record.
#[derive(Debug, Clone, Copy)]
pub struct UserFundAccount {
    /// Owner of the holding; all zero until the first deposit.
    pub owner: Address,
    /// Fund tokens held (8 decimals).
    pub fund_tokens: u64,
    /// Value deposited so far (8 decimals).
    pub total_deposited: u64,
    /// Value withdrawn so far (8 decimals).
    pub total_withdrawn: u64,
    /// Time of the last deposit.
    pub last_deposit_time: i64,
    /// Time of the last withdrawal.
    pub last_withdrawal_time: i64,
    /// Whether yield is compounded rather than paid out.
    pub auto_compound: bool,
    /// Cash yield waiting to be claimed (6 decimals).
    pub pending_yield: u64,
    /// Yield earned so far (8 decimals).
    pub total_yield_earned: u64,
    /// Time the record was claimed.
    pub created_at: i64,
    /// Number of deposits made.
    pub deposit_count: u32,
    /// Number of withdrawals made.
    pub withdrawal_count: u32,
    /// Value-weighted average NAV paid per token (8 decimals).
    pub avg_cost_basis: u64,
    /// NAV at the last deposit.
    pub last_deposit_nav: u64,
    /// Space kept for later use.
    pub reserved: [u8; 64],
    /// Storage bump of the record.
    pub bump: u8,
}

/// Whether every field of `u` is zero (a record never written).
pub open spec fn is_empty_account(u: UserFundAccount) -> bool {
    &&& is_unset_address(u.owner)
    &&& u.fund_tokens == 0
    &&& u.total_deposited == 0
    &&& u.total_withdrawn == 0
    &&& u.last_deposit_time == 0
    &&& u.last_withdrawal_time == 0
    &&& !u.auto_compound
    &&& u.pending_yield == 0
    &&& u.total_yield_earned == 0
    &&& u.created_at == 0
    &&& u.deposit_count == 0
    &&& u.withdrawal_count == 0
    &&& u.avg_cost_basis == 0
    &&& u.last_deposit_nav == 0
    &&& forall|i: int| 0 <= i < 64 ==> #[trigger] u.reserved@[i] == 0u8
    &&& u.bump == 0
}

impl Default for UserFundAccount {
    fn default() -> (r: Self)
        ensures
            is_empty_account(r),
    {
        UserFundAccount {
            owner: [0u8; 32],
            fund_tokens: 0,
            total_deposited: 0,
            total_withdrawn: 0,
            last_deposit_time: 0,
            last_withdrawal_time: 0,
            auto_compound: false,
            pending_yield: 0,
            total_yield_earned: 0,
            created_at: 0,
            deposit_count: 0,
            withdrawal_count: 0,
            avg_cost_basis: 0,
            last_deposit_nav: 0,
            reserved: [0u8; 64],
            bump: 0,
        }
    }
}

/// Classes of fixed income instrument the fund may hold.
#[derive(Debug, Clone, Copy, PartialEq, Eq, Structural)]
pub enum FixedIncomeAssetType {
    TreasuryBill,
    TreasuryNote,
    TreasuryBond,
    CorporateBond,
    CommercialPaper,
    CertificateOfDeposit,
    MunicipalBond,
    AssetBackedSecurity,
    MortgageBackedSecurity,
}

impl Default for FixedIncomeAssetType {
    fn default() -> (r: Self)
        ensures
            r == FixedIncomeAssetType::TreasuryBill,
    {
        FixedIncomeAssetType::TreasuryBill
    }
}

/// Life-cycle state of a holding.
#[derive(Debug, Clone, Copy, PartialEq, Eq, Structural)]
pub enum AssetStatus {
    Active,
    Matured,
    Sold,
    DefaultRisk,
}

impl Default for AssetStatus {
    fn default() -> (r: Self)
        ensures
            r == AssetStatus::Active,
    {
        AssetStatus::Active
    }
}

/// A fixed income holding of the portfolio.
#[derive(Debug, Clone, Copy, Default)]
pub struct FixedIncomeAsset {
    /// Instrument identifier (CUSIP, ISIN or own id).
    pub asset_id: [u8; 12],
    /// Instrument class.
    pub asset_type: FixedIncomeAssetType,
    /// Face value (8 decimals).
    pub face_value: u64,
    /// Price paid (8 decimals).
    pub purchase_price: u64,
    /// Time of purchase.
    pub purchase_date: i64,
    /// Time of maturity.
    pub maturity_date: i64,
    /// Current market value (8 decimals).
    pub current_value: u64,
    /// Annual yield in basis points.
    pub yield_rate: u32,
    /// Interest accrued so far (8 decimals).
    pub accrued_interest: u64,
    /// Time interest was last accrued.
    pub last_interest_calculation: i64,
    /// Life-cycle state.
    pub status: AssetStatus,
    /// Days left to maturity.
    pub days_to_maturity: u16,
    /// Credit rating, 1 (highest) to 10 (lowest).
    pub credit_rating: u8,
    /// Issuer of the instrument.
    pub issuer: Address,
    /// Term at purchase, in days.
    pub original_duration: u16,
    /// Sector code.
    pub sector: u8,
    /// Country code.
    pub country: u8,
    /// Currency code.
    pub currency: u8,
    /// Space kept for later use.
    pub reserved: [u8; 8],
    /// Storage bump of the record.
    pub bump: u8,
}

/// An oracle mark of one holding.
#[derive(Debug, Clone, Copy)]
pub struct AssetValuation {
    pub asset_id: Address,
    pub current_value: u64,
    pub accrued_interest: u64,
}

/// Terms of a fixed income purchase.
#[derive(Debug, Clone, Copy)]
pub struct AssetPurchase {
    pub asset_type: FixedIncomeAssetType,
    pub asset_id: [u8; 12],
    pub face_value: u64,
    pub purchase_price: u64,
    pub maturity_date: i64,
    pub yield_rate: u32,
    pub credit_rating: u8,
    pub issuer: Address,
    pub sector: u8,
    pub country: u8,
}

} // verus!
