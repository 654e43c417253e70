//! Message types of the keeper extension: jobs that whitelisted or open
//! keepers may run to keep a vault operating. This vault does not enable
//! the extension; the types are kept so that hosts and clients sharing
//! the standard can route and build these messages.

use vstd::prelude::*;

verus! {

/// A job that can be performed by a keeper.
#[derive(Debug, PartialEq, Eq)]
pub struct KeeperJob {
    /// The numeric ID of the job.
    pub id: u64,
    /// Whether only whitelisted keepers can execute the job or not.
    pub whitelist: bool,
    /// A list of whitelisted addresses that can execute the job.
    pub whitelisted_keepers: Vec<String>,
}

/// Additional ExecuteMsg variants for vaults that enable the Keeper
/// extension.
#[derive(Debug, PartialEq, Eq)]
pub enum KeeperExecuteMsg {
    /// Callable by the vault admin to whitelist a keeper to be able to
    /// execute a job.
    WhitelistKeeper {
        /// The ID of the job to whitelist the keeper for.
        job_id: u64,
        /// The address of the keeper to whitelist.
        keeper: String,
    },
    /// Callable by the vault admin to remove a keeper from the whitelist
    /// of a job.
    BlacklistKeeper {
        /// The ID of the job to blacklist the keeper for.
        job_id: u64,
        /// The address of the keeper to blacklist.
        keeper: String,
    },
    /// Execute a keeper job.
    ExecuteJob {
        /// The ID of the job to execute.
        job_id: u64,
    },
}

/// Additional QueryMsg variants for vaults that enable the Keeper
/// extension.
#[derive(Debug, PartialEq, Eq)]
pub enum KeeperQueryMsg {
    /// Returns all keeper jobs.
    KeeperJobs {},
    /// Returns the whitelisted keepers of a job.
    WhitelistedKeepers {
        /// The ID of the job to get the whitelisted keepers for.
        job_id: u64,
    },
    /// Returns whether the keeper job can be executed or not.
    KeeperJobReady {
        /// The ID of the job to check.
        job_id: u64,
    },
}

} // verus!
