//! Value catalogs for the RE-202.
//!
//! Every "named" value in the RE-202's model (input source, head mode, reverb type, MIDI
//! channel, …) is already an enum that names itself, so there is nothing to resolve: the
//! catalogs are empty and name resolution is a no-op for this device.
use vstd::prelude::*;

verus! {

/// The RE-202's (empty) value catalogs.
pub struct Re202Catalogs;

impl Re202Catalogs {
    /// The number a name stands for in a catalog: none, as there are no catalogs.
    pub fn resolve(&self, cat: &str, name: &str) -> (r: Option<i64>)
        ensures
            r is None,
    {
        None
    }

    /// The name a number has in a catalog: none, as there are no catalogs.
    pub fn label(&self, cat: &str, value: i64) -> (r: Option<String>)
        ensures
            r is None,
    {
        None
    }

    /// The catalog names: there are none.
    pub fn names(&self) -> (r: &'static [&'static str])
        ensures
            r@.len() == 0,
    {
        &[]
    }
}

} // verus!
