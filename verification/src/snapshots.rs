//! The configuration of a snapshot test of HLSL output: which entry points
//! to compile, and for which target profile.

use vstd::prelude::*;

verus! {

/// One entry point to compile and the target profile to compile it for.
#[derive(Clone, Debug, PartialEq, Eq)]
pub struct ConfigItem {
    pub entry_point: String,
    pub target_profile: String,
}

/// The entry points of a snapshot, by shader stage.
#[derive(Clone, Debug, PartialEq, Eq)]
pub struct Config {
    pub vertex: Vec<ConfigItem>,
    pub fragment: Vec<ConfigItem>,
    pub compute: Vec<ConfigItem>,
}

impl Config {
    /// Whether no stage has an entry point.
    pub open spec fn is_empty_spec(&self) -> bool {
        self.vertex@.len() == 0 && self.fragment@.len() == 0 && self.compute@.len() == 0
    }

    /// The configuration without entry points.
    pub fn empty() -> (config: Self)
        ensures
            config.vertex@ == Seq::<ConfigItem>::empty(),
            config.fragment@ == Seq::<ConfigItem>::empty(),
            config.compute@ == Seq::<ConfigItem>::empty(),
            config.is_empty_spec(),
    {
        Self { vertex: Vec::new(), fragment: Vec::new(), compute: Vec::new() }
    }

    /// Whether no stage has an entry point.
    pub fn is_empty(&self) -> (empty: bool)
        ensures
            empty == self.is_empty_spec(),
    {
        let Self { vertex, fragment, compute } = self;
        vertex.len() == 0 && fragment.len() == 0 && compute.len() == 0
    }
}

} // verus!
