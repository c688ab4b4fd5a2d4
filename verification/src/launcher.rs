use vstd::prelude::*;

use crate::ClientError;

verus! {

/// What the launcher should do, resolved from the persisted version marker
/// and from whether the binary that marker names is installed.
pub enum LaunchPlan {
    /// No version marker is set: report a configuration error with the
    /// corrective instruction.
    MissingVersion,
    /// The marked version's binary is absent: report an installation error
    /// naming the version to install.
    MissingBinary(Vec<u8>),
    /// Execute the marked version's binary with the passthrough arguments.
    Execute(Vec<u8>),
}

/// Resolves the launcher's decision: a missing marker is a configuration
/// error, a marker whose binary is absent an installation error, and
/// otherwise the binary is executed.
pub fn plan_launch(current: Option<Vec<u8>>, installed: bool) -> (r: LaunchPlan)
    ensures
        match current {
            Option::None => r is MissingVersion,
            Option::Some(v) => r == (if installed {
                LaunchPlan::Execute(v)
            } else {
                LaunchPlan::MissingBinary(v)
            }),
        },
{
    match current {
        Option::None => LaunchPlan::MissingVersion,
        Option::Some(v) => {
            if installed {
                LaunchPlan::Execute(v)
            } else {
                LaunchPlan::MissingBinary(v)
            }
        },
    }
}

/// The error a launch plan surfaces, if any: a missing marker is a
/// configuration error, a missing binary an installation error, and an
/// executable plan no error at all.
pub fn launch_error(plan: &LaunchPlan) -> (r: Option<ClientError>)
    ensures
        r == (match plan {
            LaunchPlan::MissingVersion => Option::Some(ClientError::Configuration),
            LaunchPlan::MissingBinary(_) => Option::Some(ClientError::NotInstalled),
            LaunchPlan::Execute(_) => Option::<ClientError>::None,
        }),
{
    match plan {
        LaunchPlan::MissingVersion => Option::Some(ClientError::Configuration),
        LaunchPlan::MissingBinary(_) => Option::Some(ClientError::NotInstalled),
        LaunchPlan::Execute(_) => Option::None,
    }
}

/// The exit code owed to the caller once the launched binary finished:
/// nothing when it succeeded, its own code otherwise, or 1 when it ended
/// without one.
pub fn exit_code_after(success: bool, code: Option<i32>) -> (r: Option<i32>)
    ensures
        r == (if success {
            Option::<i32>::None
        } else {
            Option::Some(
                match code {
                    Option::Some(c) => c,
                    Option::None => 1i32,
                },
            )
        }),
{
    if success {
        Option::None
    } else {
        match code {
            Option::Some(c) => Option::Some(c),
            Option::None => Option::Some(1i32),
        }
    }
}

} // verus!
