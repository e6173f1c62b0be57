//! A read-only query layer over git repositories: which commits are reachable
//! from a ref, what a commit changed, what a path holds at a ref, and which
//! tags and branches exist. The object store itself is libgit2's; this crate
//! decides what to ask of it, in which order, and what to make of the answers.

use crate::config::Config;
use vstd::prelude::*;

pub mod config;
pub mod utils;

verus! {

/// The place of the one configuration of a running server: empty until the
/// configuration is set, and never written again after that.
pub struct ConfigCell {
    slot: Option<Config>,
}

impl ConfigCell {
    /// The configuration held, if one was set.
    pub closed spec fn held(self) -> Option<Config> {
        self.slot
    }

    /// A cell that holds nothing yet.
    pub fn new() -> (res: ConfigCell)
        ensures
            res.held() is None,
    {
        ConfigCell { slot: None }
    }

    /// Whether a configuration was set.
    pub fn is_set(&self) -> (res: bool)
        ensures
            res == self.held() is Some,
    {
        self.slot.is_some()
    }
}

/// The configuration that was set. There has to be one.
pub fn config(cell: &ConfigCell) -> (res: &Config)
    requires
        cell.held() is Some,
    ensures
        Some(*res) == cell.held(),
{
    cell.slot.as_ref().unwrap()
}

/// Sets the configuration, once.
pub fn set_config(cell: &mut ConfigCell, config: Config)
    requires
        old(cell).held() is None,
    ensures
        final(cell).held() == Some(config),
{
    cell.slot = Some(config);
}

} // verus!
