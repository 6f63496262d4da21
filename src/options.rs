use vstd::prelude::*;

use crate::text::str_eq;

verus! {

/// Execution layer of a rollup stack.
#[derive(Clone, Copy, Debug, PartialEq, Eq, Structural)]
pub enum ExecutionOptions {
    OpStack,
    PolygonCDK,
    ArbOrbit,
    Rollkit,
    Polaris,
}

impl Default for ExecutionOptions {
    fn default() -> (r: Self)
        ensures
            r == ExecutionOptions::OpStack,
    {
        ExecutionOptions::OpStack
    }
}

impl ExecutionOptions {
    /// The canonical name of a value, as it appears in records and on the command line.
    pub open spec fn spec_name(self) -> Seq<char> {
        match self {
            ExecutionOptions::OpStack => "OpStack"@,
            ExecutionOptions::PolygonCDK => "PolygonCDK"@,
            ExecutionOptions::ArbOrbit => "ArbOrbit"@,
            ExecutionOptions::Rollkit => "Rollkit"@,
            ExecutionOptions::Polaris => "Polaris"@,
        }
    }

    /// The value whose canonical name is `s`, if any.
    pub open spec fn spec_from_name(s: Seq<char>) -> Option<Self> {
        if s == "OpStack"@ {
            Some(ExecutionOptions::OpStack)
        } else if s == "PolygonCDK"@ {
            Some(ExecutionOptions::PolygonCDK)
        } else if s == "ArbOrbit"@ {
            Some(ExecutionOptions::ArbOrbit)
        } else if s == "Rollkit"@ {
            Some(ExecutionOptions::Rollkit)
        } else if s == "Polaris"@ {
            Some(ExecutionOptions::Polaris)
        } else {
            None
        }
    }

    pub fn name(&self) -> (r: String)
        ensures
            r@ == self.spec_name(),
    {
        match self {
            ExecutionOptions::OpStack => String::from_str("OpStack"),
            ExecutionOptions::PolygonCDK => String::from_str("PolygonCDK"),
            ExecutionOptions::ArbOrbit => String::from_str("ArbOrbit"),
            ExecutionOptions::Rollkit => String::from_str("Rollkit"),
            ExecutionOptions::Polaris => String::from_str("Polaris"),
        }
    }

    pub fn from_name(s: &str) -> (r: Option<Self>)
        ensures
            r == Self::spec_from_name(s@),
    {
        if str_eq(s, "OpStack") {
            Some(ExecutionOptions::OpStack)
        } else if str_eq(s, "PolygonCDK") {
            Some(ExecutionOptions::PolygonCDK)
        } else if str_eq(s, "ArbOrbit") {
            Some(ExecutionOptions::ArbOrbit)
        } else if str_eq(s, "Rollkit") {
            Some(ExecutionOptions::Rollkit)
        } else if str_eq(s, "Polaris") {
            Some(ExecutionOptions::Polaris)
        } else {
            None
        }
    }

    /// The value that command-line argument `s` stands for: the canonical
    /// name, or the name in kebab case.
    pub open spec fn spec_from_cli_name(s: Seq<char>) -> Option<Self> {
        match Self::spec_from_name(s) {
            Some(v) => Some(v),
            None => {
                if s == "op-stack"@ {
                    Some(ExecutionOptions::OpStack)
                } else if s == "polygon-cdk"@ {
                    Some(ExecutionOptions::PolygonCDK)
                } else if s == "arb-orbit"@ {
                    Some(ExecutionOptions::ArbOrbit)
                } else if s == "rollkit"@ {
                    Some(ExecutionOptions::Rollkit)
                } else if s == "polaris"@ {
                    Some(ExecutionOptions::Polaris)
                } else {
                    None
                }
            },
        }
    }

    pub fn from_cli_name(s: &str) -> (r: Option<Self>)
        ensures
            r == Self::spec_from_cli_name(s@),
    {
        match Self::from_name(s) {
            Some(v) => Some(v),
            None => {
                if str_eq(s, "op-stack") {
                    Some(ExecutionOptions::OpStack)
                } else if str_eq(s, "polygon-cdk") {
                    Some(ExecutionOptions::PolygonCDK)
                } else if str_eq(s, "arb-orbit") {
                    Some(ExecutionOptions::ArbOrbit)
                } else if str_eq(s, "rollkit") {
                    Some(ExecutionOptions::Rollkit)
                } else if str_eq(s, "polaris") {
                    Some(ExecutionOptions::Polaris)
                } else {
                    None
                }
            },
        }
    }

    /// Every value, in declaration order.
    pub fn all() -> (r: Vec<Self>)
        ensures
            r@ == seq![
                ExecutionOptions::OpStack,
                ExecutionOptions::PolygonCDK,
                ExecutionOptions::ArbOrbit,
                ExecutionOptions::Rollkit,
                ExecutionOptions::Polaris,
            ],
    {
        vec![
            ExecutionOptions::OpStack,
            ExecutionOptions::PolygonCDK,
            ExecutionOptions::ArbOrbit,
            ExecutionOptions::Rollkit,
            ExecutionOptions::Polaris,
        ]
    }

    /// Reading back the canonical name of a value gives the value.
    pub proof fn lemma_name_round_trip(self)
        ensures
            Self::spec_from_name(self.spec_name()) == Some(self),
    {
        reveal_strlit("OpStack");
        reveal_strlit("PolygonCDK");
        reveal_strlit("ArbOrbit");
        reveal_strlit("Rollkit");
        reveal_strlit("Polaris");
        assert("OpStack"@[0] != "PolygonCDK"@[0]);
        assert("OpStack"@[0] != "ArbOrbit"@[0]);
        assert("OpStack"@[0] != "Rollkit"@[0]);
        assert("OpStack"@[0] != "Polaris"@[0]);
        assert("PolygonCDK"@[0] != "ArbOrbit"@[0]);
        assert("PolygonCDK"@[0] != "Rollkit"@[0]);
        assert("PolygonCDK"@.len() != "Polaris"@.len());
        assert("ArbOrbit"@[0] != "Rollkit"@[0]);
        assert("ArbOrbit"@[0] != "Polaris"@[0]);
        assert("Rollkit"@[0] != "Polaris"@[0]);
    }
}

/// Settlement layer of a rollup stack.
#[derive(Clone, Copy, Debug, PartialEq, Eq, Structural)]
pub enum SettlementOptions {
    Local,
    Sepolia,
    EthereumMainnet,
    Base,
}

impl Default for SettlementOptions {
    fn default() -> (r: Self)
        ensures
            r == SettlementOptions::Local,
    {
        SettlementOptions::Local
    }
}

impl SettlementOptions {
    /// The canonical name of a value, as it appears in records and on the command line.
    pub open spec fn spec_name(self) -> Seq<char> {
        match self {
            SettlementOptions::Local => "Local"@,
            SettlementOptions::Sepolia => "Sepolia"@,
            SettlementOptions::EthereumMainnet => "EthereumMainnet"@,
            SettlementOptions::Base => "Base"@,
        }
    }

    /// The value whose canonical name is `s`, if any.
    pub open spec fn spec_from_name(s: Seq<char>) -> Option<Self> {
        if s == "Local"@ {
            Some(SettlementOptions::Local)
        } else if s == "Sepolia"@ {
            Some(SettlementOptions::Sepolia)
        } else if s == "EthereumMainnet"@ {
            Some(SettlementOptions::EthereumMainnet)
        } else if s == "Base"@ {
            Some(SettlementOptions::Base)
        } else {
            None
        }
    }

    pub fn name(&self) -> (r: String)
        ensures
            r@ == self.spec_name(),
    {
        match self {
            SettlementOptions::Local => String::from_str("Local"),
            SettlementOptions::Sepolia => String::from_str("Sepolia"),
            SettlementOptions::EthereumMainnet => String::from_str("EthereumMainnet"),
            SettlementOptions::Base => String::from_str("Base"),
        }
    }

    pub fn from_name(s: &str) -> (r: Option<Self>)
        ensures
            r == Self::spec_from_name(s@),
    {
        if str_eq(s, "Local") {
            Some(SettlementOptions::Local)
        } else if str_eq(s, "Sepolia") {
            Some(SettlementOptions::Sepolia)
        } else if str_eq(s, "EthereumMainnet") {
            Some(SettlementOptions::EthereumMainnet)
        } else if str_eq(s, "Base") {
            Some(SettlementOptions::Base)
        } else {
            None
        }
    }

    /// The value that command-line argument `s` stands for: the canonical
    /// name, or the name in kebab case.
    pub open spec fn spec_from_cli_name(s: Seq<char>) -> Option<Self> {
        match Self::spec_from_name(s) {
            Some(v) => Some(v),
            None => {
                if s == "local"@ {
                    Some(SettlementOptions::Local)
                } else if s == "sepolia"@ {
                    Some(SettlementOptions::Sepolia)
                } else if s == "ethereum-mainnet"@ {
                    Some(SettlementOptions::EthereumMainnet)
                } else if s == "base"@ {
                    Some(SettlementOptions::Base)
                } else {
                    None
                }
            },
        }
    }

    pub fn from_cli_name(s: &str) -> (r: Option<Self>)
        ensures
            r == Self::spec_from_cli_name(s@),
    {
        match Self::from_name(s) {
            Some(v) => Some(v),
            None => {
                if str_eq(s, "local") {
                    Some(SettlementOptions::Local)
                } else if str_eq(s, "sepolia") {
                    Some(SettlementOptions::Sepolia)
                } else if str_eq(s, "ethereum-mainnet") {
                    Some(SettlementOptions::EthereumMainnet)
                } else if str_eq(s, "base") {
                    Some(SettlementOptions::Base)
                } else {
                    None
                }
            },
        }
    }

    /// Every value, in declaration order.
    pub fn all() -> (r: Vec<Self>)
        ensures
            r@ == seq![
                SettlementOptions::Local,
                SettlementOptions::Sepolia,
                SettlementOptions::EthereumMainnet,
                SettlementOptions::Base,
            ],
    {
        vec![
            SettlementOptions::Local,
            SettlementOptions::Sepolia,
            SettlementOptions::EthereumMainnet,
            SettlementOptions::Base,
        ]
    }

    /// Reading back the canonical name of a value gives the value.
    pub proof fn lemma_name_round_trip(self)
        ensures
            Self::spec_from_name(self.spec_name()) == Some(self),
    {
        reveal_strlit("Local");
        reveal_strlit("Sepolia");
        reveal_strlit("EthereumMainnet");
        reveal_strlit("Base");
        assert("Local"@[0] != "Sepolia"@[0]);
        assert("Local"@[0] != "EthereumMainnet"@[0]);
        assert("Local"@[0] != "Base"@[0]);
        assert("Sepolia"@[0] != "EthereumMainnet"@[0]);
        assert("Sepolia"@[0] != "Base"@[0]);
        assert("EthereumMainnet"@[0] != "Base"@[0]);
    }
}

/// Sequencer of a rollup stack.
#[derive(Clone, Copy, Debug, PartialEq, Eq, Structural)]
pub enum SequencerOptions {
    Default,
    Espresso,
}

impl Default for SequencerOptions {
    fn default() -> (r: Self)
        ensures
            r == SequencerOptions::Default,
    {
        SequencerOptions::Default
    }
}

impl SequencerOptions {
    /// The canonical name of a value, as it appears in records and on the command line.
    pub open spec fn spec_name(self) -> Seq<char> {
        match self {
            SequencerOptions::Default => "Default"@,
            SequencerOptions::Espresso => "Espresso"@,
        }
    }

    /// The value whose canonical name is `s`, if any.
    pub open spec fn spec_from_name(s: Seq<char>) -> Option<Self> {
        if s == "Default"@ {
            Some(SequencerOptions::Default)
        } else if s == "Espresso"@ {
            Some(SequencerOptions::Espresso)
        } else {
            None
        }
    }

    pub fn name(&self) -> (r: String)
        ensures
            r@ == self.spec_name(),
    {
        match self {
            SequencerOptions::Default => String::from_str("Default"),
            SequencerOptions::Espresso => String::from_str("Espresso"),
        }
    }

    pub fn from_name(s: &str) -> (r: Option<Self>)
        ensures
            r == Self::spec_from_name(s@),
    {
        if str_eq(s, "Default") {
            Some(SequencerOptions::Default)
        } else if str_eq(s, "Espresso") {
            Some(SequencerOptions::Espresso)
        } else {
            None
        }
    }

    /// The value that command-line argument `s` stands for: the canonical
    /// name, or the name in kebab case.
    pub open spec fn spec_from_cli_name(s: Seq<char>) -> Option<Self> {
        match Self::spec_from_name(s) {
            Some(v) => Some(v),
            None => {
                if s == "default"@ {
                    Some(SequencerOptions::Default)
                } else if s == "espresso"@ {
                    Some(SequencerOptions::Espresso)
                } else {
                    None
                }
            },
        }
    }

    pub fn from_cli_name(s: &str) -> (r: Option<Self>)
        ensures
            r == Self::spec_from_cli_name(s@),
    {
        match Self::from_name(s) {
            Some(v) => Some(v),
            None => {
                if str_eq(s, "default") {
                    Some(SequencerOptions::Default)
                } else if str_eq(s, "espresso") {
                    Some(SequencerOptions::Espresso)
                } else {
                    None
                }
            },
        }
    }

    /// Every value, in declaration order.
    pub fn all() -> (r: Vec<Self>)
        ensures
            r@ == seq![
                SequencerOptions::Default,
                SequencerOptions::Espresso,
            ],
    {
        vec![
            SequencerOptions::Default,
            SequencerOptions::Espresso,
        ]
    }

    /// Reading back the canonical name of a value gives the value.
    pub proof fn lemma_name_round_trip(self)
        ensures
            Self::spec_from_name(self.spec_name()) == Some(self),
    {
        reveal_strlit("Default");
        reveal_strlit("Espresso");
        assert("Default"@[0] != "Espresso"@[0]);
    }
}

/// Data-availability layer of a rollup stack. `Default` stands for whatever the settlement layer implies; it is kept as it is and never resolved further.
#[derive(Clone, Copy, Debug, PartialEq, Eq, Structural)]
pub enum DataAvailabilityOptions {
    Default,
    Celestia,
    Eigen,
    Avail,
}

impl Default for DataAvailabilityOptions {
    fn default() -> (r: Self)
        ensures
            r == DataAvailabilityOptions::Default,
    {
        DataAvailabilityOptions::Default
    }
}

impl DataAvailabilityOptions {
    /// The canonical name of a value, as it appears in records and on the command line.
    pub open spec fn spec_name(self) -> Seq<char> {
        match self {
            DataAvailabilityOptions::Default => "Default"@,
            DataAvailabilityOptions::Celestia => "Celestia"@,
            DataAvailabilityOptions::Eigen => "Eigen"@,
            DataAvailabilityOptions::Avail => "Avail"@,
        }
    }

    /// The value whose canonical name is `s`, if any.
    pub open spec fn spec_from_name(s: Seq<char>) -> Option<Self> {
        if s == "Default"@ {
            Some(DataAvailabilityOptions::Default)
        } else if s == "Celestia"@ {
            Some(DataAvailabilityOptions::Celestia)
        } else if s == "Eigen"@ {
            Some(DataAvailabilityOptions::Eigen)
        } else if s == "Avail"@ {
            Some(DataAvailabilityOptions::Avail)
        } else {
            None
        }
    }

    pub fn name(&self) -> (r: String)
        ensures
            r@ == self.spec_name(),
    {
        match self {
            DataAvailabilityOptions::Default => String::from_str("Default"),
            DataAvailabilityOptions::Celestia => String::from_str("Celestia"),
            DataAvailabilityOptions::Eigen => String::from_str("Eigen"),
            DataAvailabilityOptions::Avail => String::from_str("Avail"),
        }
    }

    pub fn from_name(s: &str) -> (r: Option<Self>)
        ensures
            r == Self::spec_from_name(s@),
    {
        if str_eq(s, "Default") {
            Some(DataAvailabilityOptions::Default)
        } else if str_eq(s, "Celestia") {
            Some(DataAvailabilityOptions::Celestia)
        } else if str_eq(s, "Eigen") {
            Some(DataAvailabilityOptions::Eigen)
        } else if str_eq(s, "Avail") {
            Some(DataAvailabilityOptions::Avail)
        } else {
            None
        }
    }

    /// The value that command-line argument `s` stands for: the canonical
    /// name, or the name in kebab case.
    pub open spec fn spec_from_cli_name(s: Seq<char>) -> Option<Self> {
        match Self::spec_from_name(s) {
            Some(v) => Some(v),
            None => {
                if s == "default"@ {
                    Some(DataAvailabilityOptions::Default)
                } else if s == "celestia"@ {
                    Some(DataAvailabilityOptions::Celestia)
                } else if s == "eigen"@ {
                    Some(DataAvailabilityOptions::Eigen)
                } else if s == "avail"@ {
                    Some(DataAvailabilityOptions::Avail)
                } else {
                    None
                }
            },
        }
    }

    pub fn from_cli_name(s: &str) -> (r: Option<Self>)
        ensures
            r == Self::spec_from_cli_name(s@),
    {
        match Self::from_name(s) {
            Some(v) => Some(v),
            None => {
                if str_eq(s, "default") {
                    Some(DataAvailabilityOptions::Default)
                } else if str_eq(s, "celestia") {
                    Some(DataAvailabilityOptions::Celestia)
                } else if str_eq(s, "eigen") {
                    Some(DataAvailabilityOptions::Eigen)
                } else if str_eq(s, "avail") {
                    Some(DataAvailabilityOptions::Avail)
                } else {
                    None
                }
            },
        }
    }

    /// Every value, in declaration order.
    pub fn all() -> (r: Vec<Self>)
        ensures
            r@ == seq![
                DataAvailabilityOptions::Default,
                DataAvailabilityOptions::Celestia,
                DataAvailabilityOptions::Eigen,
                DataAvailabilityOptions::Avail,
            ],
    {
        vec![
            DataAvailabilityOptions::Default,
            DataAvailabilityOptions::Celestia,
            DataAvailabilityOptions::Eigen,
            DataAvailabilityOptions::Avail,
        ]
    }

    /// Reading back the canonical name of a value gives the value.
    pub proof fn lemma_name_round_trip(self)
        ensures
            Self::spec_from_name(self.spec_name()) == Some(self),
    {
        reveal_strlit("Default");
        reveal_strlit("Celestia");
        reveal_strlit("Eigen");
        reveal_strlit("Avail");
        assert("Default"@[0] != "Celestia"@[0]);
        assert("Default"@[0] != "Eigen"@[0]);
        assert("Default"@[0] != "Avail"@[0]);
        assert("Celestia"@[0] != "Eigen"@[0]);
        assert("Celestia"@[0] != "Avail"@[0]);
        assert("Eigen"@[0] != "Avail"@[0]);
    }
}

} // verus!
