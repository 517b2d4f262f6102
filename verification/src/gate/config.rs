use crate::command::structure::{Cli, PermissionProfile};
use vstd::prelude::*;

verus! {

/// What a run knows of the credential it works on.
#[derive(Clone, Debug)]
pub struct GateInformation {
    pub user: Option<String>,
    pub group: Option<String>,
    pub namespace: Option<String>,
    pub profile: Option<PermissionProfile>,
    pub command: Option<Cli>,
}

/// The place where a run keeps its information. It is filled once.
#[derive(Debug)]
pub struct GateConfig {
    slot: Option<GateInformation>,
}

impl GateConfig {
    /// What the place holds.
    pub closed spec fn held(self) -> Option<GateInformation> {
        self.slot
    }

    /// An empty place.
    pub fn new() -> (cell: GateConfig)
        ensures
            cell.held() is None,
    {
        GateConfig { slot: None }
    }

    /// Whether the place was filled.
    pub fn is_set(&self) -> (b: bool)
        ensures
            b == self.held() is Some,
    {
        self.slot.is_some()
    }
}

/// Fills the place. To fill it a second time is a fault of the caller.
pub fn init_gate_config(cell: &mut GateConfig, config: GateInformation)
    requires
        old(cell).held() is None,
    ensures
        final(cell).held() == Some(config),
{
    cell.slot = Some(config);
}

/// What the place was filled with. To ask before it was filled is a fault of
/// the caller.
pub fn get_gate_config(cell: &GateConfig) -> (config: &GateInformation)
    requires
        cell.held() is Some,
    ensures
        cell.held() == Some(*config),
{
    match &cell.slot {
        Some(config) => config,
        None => vstd::pervasive::unreached(),
    }
}

} // verus!
