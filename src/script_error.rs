//! Failures of the deployment and maintenance tooling.
use vstd::prelude::*;
use vstd::string::StringExecFns;

verus! {

/// What went wrong in a tooling step, with the underlying message.
#[derive(Debug)]
pub enum ScriptError {
    /// Reading or writing the output file failed.
    JsonOutputError(String),
    /// The RPC client could not be set up.
    ClientInitialization(String),
    /// The deployer's nonce could not be fetched.
    NonceFetching(String),
    /// A contract could not be deployed.
    ContractDeployment(String),
    /// A contract could not be compiled.
    ContractCompilation(String),
    /// A simulated contract call failed.
    ContractSimulation(String),
    /// A contract call failed.
    ContractInteraction(String),
}

impl ScriptError {
    /// The prefix that `message` puts before the underlying text.
    pub open spec fn prefix(&self) -> Seq<char> {
        match self {
            ScriptError::JsonOutputError(_) => "error writing json output: "@,
            ScriptError::ClientInitialization(_) => "error during client init: "@,
            ScriptError::NonceFetching(_) => "error during nonce fetching for client signing: "@,
            ScriptError::ContractDeployment(_) => "error deploying contract: "@,
            ScriptError::ContractCompilation(_) => "error compiling contract: "@,
            ScriptError::ContractSimulation(_) => "error simulating contract call: "@,
            ScriptError::ContractInteraction(_) => "error interacting with contract: "@,
        }
    }

    /// The underlying text.
    pub open spec fn detail(&self) -> Seq<char> {
        match self {
            ScriptError::JsonOutputError(s) => s@,
            ScriptError::ClientInitialization(s) => s@,
            ScriptError::NonceFetching(s) => s@,
            ScriptError::ContractDeployment(s) => s@,
            ScriptError::ContractCompilation(s) => s@,
            ScriptError::ContractSimulation(s) => s@,
            ScriptError::ContractInteraction(s) => s@,
        }
    }

    /// The human-readable description: the kind of failure, then the text.
    pub fn message(&self) -> (r: String)
        ensures
            r@ == self.prefix() + self.detail(),
    {
        let (prefix, detail) = match self {
            ScriptError::JsonOutputError(s) => ("error writing json output: ", s),
            ScriptError::ClientInitialization(s) => ("error during client init: ", s),
            ScriptError::NonceFetching(s) => ("error during nonce fetching for client signing: ", s),
            ScriptError::ContractDeployment(s) => ("error deploying contract: ", s),
            ScriptError::ContractCompilation(s) => ("error compiling contract: ", s),
            ScriptError::ContractSimulation(s) => ("error simulating contract call: ", s),
            ScriptError::ContractInteraction(s) => ("error interacting with contract: ", s),
        };
        let mut out = <String as StringExecFns>::from_str(prefix);
        out.append(detail.as_str());
        out
    }
}

} // verus!
