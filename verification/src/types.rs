//! The closed sets of guest programs and proving backends.

use vstd::prelude::*;
use vstd::string::StringExecFns;

verus! {

/// A guest workload.
#[derive(Clone, Copy, PartialEq, Eq, Structural, Debug)]
pub enum ProgramId {
    Loop,
    Fibonacci,
    Tendermint,
    Reth,
}

/// A proving backend.
#[derive(Clone, Copy, PartialEq, Eq, Structural, Debug)]
pub enum ProverId {
    Risc0,
    SP1,
    Lita,
    Nexus,
    Zisk,
    Bento,
}

impl ProgramId {
    /// The lower-case name under which the program is built and reported.
    pub open spec fn name(self) -> Seq<char> {
        match self {
            ProgramId::Loop => "loop"@,
            ProgramId::Fibonacci => "fibonacci"@,
            ProgramId::Tendermint => "tendermint"@,
            ProgramId::Reth => "reth"@,
        }
    }

    pub fn to_string(&self) -> (s: String)
        ensures
            s@ == self.name(),
    {
        match self {
            ProgramId::Loop => String::from_str("loop"),
            ProgramId::Fibonacci => String::from_str("fibonacci"),
            ProgramId::Tendermint => String::from_str("tendermint"),
            ProgramId::Reth => String::from_str("reth"),
        }
    }
}

impl ProverId {
    /// The lower-case name under which the backend is reported.
    pub open spec fn name(self) -> Seq<char> {
        match self {
            ProverId::Risc0 => "risc0"@,
            ProverId::SP1 => "sp1"@,
            ProverId::Lita => "lita"@,
            ProverId::Nexus => "nexus"@,
            ProverId::Zisk => "zisk"@,
            ProverId::Bento => "bento"@,
        }
    }

    pub fn to_string(&self) -> (s: String)
        ensures
            s@ == self.name(),
    {
        match self {
            ProverId::Risc0 => String::from_str("risc0"),
            ProverId::SP1 => String::from_str("sp1"),
            ProverId::Lita => String::from_str("lita"),
            ProverId::Nexus => String::from_str("nexus"),
            ProverId::Zisk => String::from_str("zisk"),
            ProverId::Bento => String::from_str("bento"),
        }
    }
}

} // verus!
