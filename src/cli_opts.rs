//! Options of the command-line subcommands that carry no server types.

use vstd::prelude::*;

verus! {

/// Options of `deploy`.
#[derive(Clone, Debug, Default)]
pub struct DeployCommand {
    pub service_id: Option<String>,
}

/// Options of `login`.
#[derive(Clone, Debug, Default)]
pub struct LoginCommand {
    pub token: Option<String>,
    pub clear: bool,
}

} // verus!
