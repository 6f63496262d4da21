use vstd::prelude::*;

use crate::options::{DataAvailabilityOptions, ExecutionOptions, SequencerOptions, SettlementOptions};

verus! {

/// Per-invocation overrides, one optional value per axis. An absent value
/// inherits the axis from the base configuration.
#[derive(Clone, Copy, Debug, PartialEq, Eq, Structural)]
pub struct CommonArgs {
    pub execution: Option<ExecutionOptions>,
    pub settlement: Option<SettlementOptions>,
    pub sequencer: Option<SequencerOptions>,
    pub data_availability: Option<DataAvailabilityOptions>,
}

/// Arguments of `run` and `deploy`.
#[derive(Clone, Debug)]
pub struct RunDeployArgs {
    pub common: CommonArgs,
    /// Template names given with the flag, in the order given.
    pub template: Option<Vec<String>>,
    /// Template names given as positional arguments, in the order given.
    pub positional_templates: Vec<String>,
}

/// Arguments of `templates new`.
#[derive(Clone, Debug)]
pub struct NewTemplateArgs {
    pub name: String,
    pub common: CommonArgs,
}

/// Arguments of `templates delete`; without a name the template is chosen interactively.
#[derive(Clone, Debug)]
pub struct DeleteTemplateArgs {
    pub name: Option<String>,
}

impl CommonArgs {
    /// No axis is overridden.
    pub open spec fn is_empty(self) -> bool {
        self.execution is None && self.settlement is None && self.sequencer is None
            && self.data_availability is None
    }

    /// An override set that overrides nothing.
    pub fn none() -> (r: Self)
        ensures
            r.is_empty(),
    {
        CommonArgs { execution: None, settlement: None, sequencer: None, data_availability: None }
    }
}

} // verus!
