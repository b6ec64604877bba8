//! Settings of the forwarder and the write-once cell that holds them.

use vstd::prelude::*;

verus! {

/// One forwarding rule: connections accepted on `listen_address` are
/// relayed to `forward_address`.
#[derive(Debug, PartialEq, Eq)]
pub struct Server {
    pub name: String,
    pub listen_address: String,
    pub forward_address: String,
}

/// Everything the forwarder is configured with.
#[derive(Debug, PartialEq, Eq)]
pub struct Settings {
    /// Whether successful transfers are reported with their byte counts.
    pub debug: bool,
    /// The forwarding rules, one listener each.
    pub forward: Vec<Server>,
}

/// A cell that is filled at most once and read any number of times after.
pub struct ConfigCell {
    slot: Option<Settings>,
}

impl View for ConfigCell {
    type V = Option<Settings>;

    closed spec fn view(&self) -> Option<Settings> {
        self.slot
    }
}

impl ConfigCell {
    /// An empty cell.
    pub fn new() -> (cell: Self)
        ensures
            cell@ is None,
    {
        ConfigCell { slot: None }
    }

    /// Whether the cell has been filled.
    pub fn is_initialized(&self) -> (filled: bool)
        ensures
            filled == (self@ is Some),
    {
        self.slot.is_some()
    }
}

/// Fills the cell. A cell is filled once: the caller must hold an empty one.
pub fn init_config(cell: &mut ConfigCell, settings: Settings)
    requires
        old(cell)@ is None,
    ensures
        final(cell)@ == Some(settings),
{
    cell.slot = Some(settings);
}

/// The settings the cell was filled with.
pub fn get_config(cell: &ConfigCell) -> (settings: &Settings)
    requires
        cell@ is Some,
    ensures
        Some(*settings) == cell@,
{
    cell.slot.as_ref().unwrap()
}

} // verus!
