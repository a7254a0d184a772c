//! Command-line settings of the compiler driver.
use vstd::prelude::*;

verus! {

broadcast use vstd::string::group_string_axioms;

/// How hard the code generator optimises.
#[derive(Clone, Copy, PartialEq, Eq, PartialOrd, Ord, Debug, Hash, Structural)]
pub enum OptLevel {
    O0,
    O1,
    O2,
    O3,
}

impl OptLevel {
    /// The LLVM optimisation level that the setting stands for, 0 to 3.
    pub open spec fn level(self) -> nat {
        match self {
            OptLevel::O0 => 0,
            OptLevel::O1 => 1,
            OptLevel::O2 => 2,
            OptLevel::O3 => 3,
        }
    }

    pub open spec fn spec_name(self) -> Seq<char> {
        match self {
            OptLevel::O0 => "O0"@,
            OptLevel::O1 => "O1"@,
            OptLevel::O2 => "O2"@,
            OptLevel::O3 => "O3"@,
        }
    }

    pub open spec fn spec_help(self) -> Seq<char> {
        match self {
            OptLevel::O0 => "No optimization"@,
            OptLevel::O1 => "Less optimization"@,
            OptLevel::O2 => "Default optimization"@,
            OptLevel::O3 => "Aggressive optimization"@,
        }
    }

    /// Every setting, from the least optimisation to the most.
    pub fn value_variants() -> (r: Vec<OptLevel>)
        ensures
            r@ == seq![OptLevel::O0, OptLevel::O1, OptLevel::O2, OptLevel::O3],
    {
        vec![OptLevel::O0, OptLevel::O1, OptLevel::O2, OptLevel::O3]
    }

    /// The name a user writes on the command line.
    pub fn name(&self) -> (r: &'static str)
        ensures
            r@ == self.spec_name(),
    {
        match self {
            OptLevel::O0 => "O0",
            OptLevel::O1 => "O1",
            OptLevel::O2 => "O2",
            OptLevel::O3 => "O3",
        }
    }

    /// A one-line description for the help text.
    pub fn help(&self) -> (r: &'static str)
        ensures
            r@ == self.spec_help(),
    {
        match self {
            OptLevel::O0 => "No optimization",
            OptLevel::O1 => "Less optimization",
            OptLevel::O2 => "Default optimization",
            OptLevel::O3 => "Aggressive optimization",
        }
    }

    /// The numeric LLVM optimisation level.
    pub fn llvm_level(&self) -> (r: u32)
        ensures
            r == self.level(),
    {
        match self {
            OptLevel::O0 => 0,
            OptLevel::O1 => 1,
            OptLevel::O2 => 2,
            OptLevel::O3 => 3,
        }
    }
}

/// The driver's settings.
pub struct Cli {
    /// The optimisation level passed to LLVM.
    pub opt_level: OptLevel,
    /// Comma-separated list of LLVM passes.
    pub passes: String,
    /// Run the front end only and print the syntax tree.
    pub use_frontend_only: bool,
}

/// The passes run when none are given.
pub open spec fn default_passes() -> Seq<char> {
    "instcombine,reassociate,gvn,simplifycfg"@
}

impl Default for Cli {
    fn default() -> (r: Cli)
        ensures
            r.opt_level == OptLevel::O2,
            r.passes@ == default_passes(),
            !r.use_frontend_only,
    {
        Cli {
            opt_level: OptLevel::O2,
            passes: "instcombine,reassociate,gvn,simplifycfg".to_string(),
            use_frontend_only: false,
        }
    }
}

} // verus!
