//! The arguments of the `sdk` command: modify or query the installed SDKs.
use vstd::prelude::*;

verus! {

/// `sdk`: modify or query the installed SDKs.
#[derive(Debug, Clone, Copy, PartialEq, Eq, Structural)]
pub struct SdkCommand {
    pub sub: SubCommand,
}

/// The subcommands of `sdk`.
#[derive(Debug, Clone, Copy, PartialEq, Eq, Structural)]
pub enum SubCommand {
    /// `version`: retrieve the version of the current SDK.
    Version(VersionCommand),
}

/// `version`: retrieve the version of the current SDK.
#[derive(Debug, Clone, Copy, PartialEq, Eq, Structural)]
pub struct VersionCommand {}

} // verus!
