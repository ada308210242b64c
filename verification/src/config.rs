//! The configured destinations.

use crate::selection::Instance;
use vstd::prelude::*;

verus! {

/// The configuration: the destinations, in the order the user wrote them.
#[derive(Clone, Debug, PartialEq, Eq)]
pub struct Config {
    pub instance: Vec<Instance>,
}

impl Default for Config {
    /// A configuration without destinations.
    fn default() -> (config: Self)
        ensures
            config.instance@.len() == 0,
    {
        Config { instance: Vec::new() }
    }
}

} // verus!
