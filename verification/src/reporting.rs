//! The reporting collaborator: per vault, one snapshot of net asset value and
//! profit per day. It keeps what it is told; nothing is derived or checked.

use vstd::prelude::*;
use crate::address::Address;

verus! {

/// Who reports for a vault.
#[derive(Clone, Copy, Debug, PartialEq, Eq)]
pub struct ReportingConfig {
    /// Identity that posts the reports.
    pub authority: Address,
    pub vault: Address,
    /// Bump seed of this record's address.
    pub bump: u8,
}

impl ReportingConfig {
    /// The tag of reporting config addresses: `reporting_config` in ASCII.
    pub const SEED: [u8; 16] = [
        114, 101, 112, 111, 114, 116, 105, 110, 103, 95, 99, 111, 110, 102, 105, 103,
    ];

    /// Size of the stored record in bytes, its 8-byte tag included.
    pub const LEN: usize = 8 + 32 + 32 + 1;
}

/// The snapshot of one vault on one day.
#[derive(Clone, Copy, Debug, PartialEq, Eq)]
pub struct NavReport {
    pub vault: Address,
    /// Days since the Unix epoch.
    pub day: i64,
    /// Net asset value in units of the underlying asset.
    pub nav: u64,
    /// Shares outstanding: the vault's total voting power.
    pub total_shares: u64,
    /// Profit or loss in units of the underlying asset.
    pub pnl: i64,
    /// Bump seed of this record's address.
    pub bump: u8,
}

impl NavReport {
    /// The tag of report addresses: `nav_report` in ASCII.
    pub const SEED_PREFIX: [u8; 10] = [110, 97, 118, 95, 114, 101, 112, 111, 114, 116];

    /// Size of the stored record in bytes, its 8-byte tag included.
    pub const LEN: usize = 8 + 32 + 8 + 8 + 8 + 8 + 1;
}

/// What `initialize` touches.
#[derive(Clone, Copy, Debug, PartialEq, Eq)]
pub struct Initialize {
    /// The reporting config to create.
    pub reporting_config: Option<ReportingConfig>,
    pub vault: Address,
    /// The caller, who becomes the authority.
    pub authority: Address,
    /// Bump seed of the config's address.
    pub bump: u8,
}

/// What `submit_nav_report` touches.
#[derive(Clone, Copy, Debug, PartialEq, Eq)]
pub struct SubmitNavReport {
    pub reporting_config: ReportingConfig,
    /// The report to create.
    pub nav_report: Option<NavReport>,
    /// The caller.
    pub authority: Address,
    /// Bump seed of the report's address.
    pub bump: u8,
}

/// Sets up reporting for a vault, with the caller as its authority. The
/// argument is not used.
pub fn initialize(accounts: &mut Initialize, _dummy: u8)
    ensures
        *final(accounts) == (Initialize {
            reporting_config: Some(
                ReportingConfig {
                    authority: old(accounts).authority,
                    vault: old(accounts).vault,
                    bump: old(accounts).bump,
                },
            ),
            ..*old(accounts)
        }),
{
    accounts.reporting_config = Some(
        ReportingConfig {
            authority: accounts.authority,
            vault: accounts.vault,
            bump: accounts.bump,
        },
    );
}

/// Posts the snapshot of day `day` for the vault of the reporting config.
pub fn submit_nav_report(
    accounts: &mut SubmitNavReport,
    day: i64,
    nav: u64,
    total_shares: u64,
    pnl: i64,
)
    ensures
        *final(accounts) == (SubmitNavReport {
            nav_report: Some(
                NavReport {
                    vault: old(accounts).reporting_config.vault,
                    day,
                    nav,
                    total_shares,
                    pnl,
                    bump: old(accounts).bump,
                },
            ),
            ..*old(accounts)
        }),
{
    accounts.nav_report = Some(
        NavReport {
            vault: accounts.reporting_config.vault,
            day,
            nav,
            total_shares,
            pnl,
            bump: accounts.bump,
        },
    );
}

} // verus!
