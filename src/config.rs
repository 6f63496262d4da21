use vstd::prelude::*;

use crate::args::CommonArgs;
use crate::text::opt_string_view;
use crate::options::{DataAvailabilityOptions, ExecutionOptions, SequencerOptions, SettlementOptions};

verus! {

/// A fully materialised choice on the four axes, with the name of the
/// template it came from, if any.
#[derive(Clone, Debug)]
pub struct Config {
    pub template_name: Option<String>,
    pub execution: ExecutionOptions,
    pub settlement: SettlementOptions,
    pub sequencer: SequencerOptions,
    pub data_availability: DataAvailabilityOptions,
}

/// The mathematical value of a [`Config`].
pub struct ConfigView {
    pub template_name: Option<Seq<char>>,
    pub execution: ExecutionOptions,
    pub settlement: SettlementOptions,
    pub sequencer: SequencerOptions,
    pub data_availability: DataAvailabilityOptions,
}

impl View for Config {
    type V = ConfigView;

    open spec fn view(&self) -> ConfigView {
        ConfigView {
            template_name: opt_string_view(self.template_name),
            execution: self.execution,
            settlement: self.settlement,
            sequencer: self.sequencer,
            data_availability: self.data_availability,
        }
    }
}

/// The configuration with every axis at its default and no template.
pub open spec fn default_config() -> ConfigView {
    ConfigView {
        template_name: None,
        execution: ExecutionOptions::OpStack,
        settlement: SettlementOptions::Local,
        sequencer: SequencerOptions::Default,
        data_availability: DataAvailabilityOptions::Default,
    }
}

/// Merges overrides into a base: each axis takes the override where one is
/// given and the base's value otherwise; the template name is the base's.
pub open spec fn resolve(base: ConfigView, o: CommonArgs) -> ConfigView {
    ConfigView {
        template_name: base.template_name,
        execution: match o.execution {
            Some(v) => v,
            None => base.execution,
        },
        settlement: match o.settlement {
            Some(v) => v,
            None => base.settlement,
        },
        sequencer: match o.sequencer {
            Some(v) => v,
            None => base.sequencer,
        },
        data_availability: match o.data_availability {
            Some(v) => v,
            None => base.data_availability,
        },
    }
}

impl Default for Config {
    fn default() -> (r: Self)
        ensures
            r@ == default_config(),
    {
        Config {
            template_name: None,
            execution: ExecutionOptions::default(),
            settlement: SettlementOptions::default(),
            sequencer: SequencerOptions::default(),
            data_availability: DataAvailabilityOptions::default(),
        }
    }
}

/// With no override set, resolving leaves the base as it is.
pub proof fn lemma_resolve_identity(base: ConfigView, o: CommonArgs)
    requires
        o.is_empty(),
    ensures
        resolve(base, o) == base,
{
}

/// An axis that is overridden takes the override's value, whatever the base
/// holds; the template name is never touched.
pub proof fn lemma_resolve_override_wins(base: ConfigView, o: CommonArgs)
    ensures
        o.execution matches Some(v) ==> resolve(base, o).execution == v,
        o.settlement matches Some(v) ==> resolve(base, o).settlement == v,
        o.sequencer matches Some(v) ==> resolve(base, o).sequencer == v,
        o.data_availability matches Some(v) ==> resolve(base, o).data_availability == v,
        resolve(base, o).template_name == base.template_name,
{
}

} // verus!
