//! Selecting what an external plugin validator should check.
//!
//! Running the validator is a plain subprocess call and stays outside this
//! crate; what stands here is the decision which command-line arguments a
//! chosen mode turns into.

use vstd::prelude::*;
use vstd::string::StringExecFns;

verus! {

/// Validation modes that the plugin validator offers.
#[derive(Clone, Debug, PartialEq, Eq)]
pub enum ValidationMode {
    /// Regular checks for all plugins.
    Basic,
    /// Extensive tests.
    Extensive,
    /// Only a single test suite.
    SingleSuite(String),
}

impl ValidationMode {
    /// The command-line arguments selecting this mode, to be passed to the
    /// validator before the plugin path: nothing for the basic checks, `-e`
    /// for the extensive ones, `-suite` and the suite name for a single
    /// suite.
    pub fn cli_args(&self) -> (r: Vec<String>)
        ensures
            match self {
                ValidationMode::Basic => r@.len() == 0,
                ValidationMode::Extensive => r@.len() == 1 && r@[0]@ == "-e"@,
                ValidationMode::SingleSuite(suite) => r@.len() == 2 && r@[0]@ == "-suite"@
                    && r@[1]@ == suite@,
            },
    {
        let mut args: Vec<String> = Vec::new();
        match self {
            ValidationMode::Basic => {},
            ValidationMode::Extensive => {
                args.push(String::from_str("-e"));
            },
            ValidationMode::SingleSuite(suite) => {
                args.push(String::from_str("-suite"));
                args.push(suite.clone());
            },
        }
        args
    }
}

} // verus!
