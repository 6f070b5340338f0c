//! Dry runs: actions are described instead of performed. Whether the run is
//! dry is read by the program around the library and handed in.
use vstd::prelude::*;

verus! {

/// Whether to perform an action.
#[derive(Debug, Clone, Copy, PartialEq, Eq, Structural)]
pub enum DryRunDecision {
    Execute,
    /// Only describe the action.
    Describe,
}

/// Performs an action unless the run is dry.
pub fn exec_unless_dry_run(dry_run: bool) -> (r: DryRunDecision)
    ensures
        dry_run ==> r == DryRunDecision::Describe,
        !dry_run ==> r == DryRunDecision::Execute,
{
    if dry_run {
        DryRunDecision::Describe
    } else {
        DryRunDecision::Execute
    }
}

/// In a dry run the action's value is `default`; otherwise it is to be
/// computed (`None`).
pub fn exec_unless_dry_run_with_default<T>(dry_run: bool, default: T) -> (r: Option<T>)
    ensures
        dry_run ==> r == Some(default),
        !dry_run ==> r is None,
{
    if dry_run {
        Some(default)
    } else {
        None
    }
}

} // verus!
