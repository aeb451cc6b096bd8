//! Deployment lifecycle status of a repo or a job.

use vstd::prelude::*;

use crate::error::ServiceError;

verus! {

/// Lifecycle status of a deployment.  Jobs move from `Running` to one
/// of `Cancelled`, `Success` or `Failure`; a repo that has never run a
/// job reports `Idle`.
#[derive(Clone, Copy, Debug, PartialEq, Eq, Structural)]
pub enum DeployStatus {
    Running,
    Cancelled,
    Success,
    Failure,
    Idle,
}

impl DeployStatus {
    /// The uppercase code under which this status is persisted.
    pub open spec fn code_spec(&self) -> Seq<char> {
        match self {
            DeployStatus::Running => "RUNNING"@,
            DeployStatus::Cancelled => "CANCELLED"@,
            DeployStatus::Success => "SUCCESS"@,
            DeployStatus::Failure => "FAILURE"@,
            DeployStatus::Idle => "IDLE"@,
        }
    }

    /// Renders the status as its persisted uppercase code.
    pub fn code_string(&self) -> (r: String)
        ensures
            r@ == self.code_spec(),
    {
        match self {
            DeployStatus::Running => "RUNNING".to_owned(),
            DeployStatus::Cancelled => "CANCELLED".to_owned(),
            DeployStatus::Success => "SUCCESS".to_owned(),
            DeployStatus::Failure => "FAILURE".to_owned(),
            DeployStatus::Idle => "IDLE".to_owned(),
        }
    }

    /// The status whose persisted code is `value`, if any.
    pub open spec fn from_code_spec(value: Seq<char>) -> Option<DeployStatus> {
        if value == "RUNNING"@ {
            Some(DeployStatus::Running)
        } else if value == "CANCELLED"@ {
            Some(DeployStatus::Cancelled)
        } else if value == "SUCCESS"@ {
            Some(DeployStatus::Success)
        } else if value == "FAILURE"@ {
            Some(DeployStatus::Failure)
        } else if value == "IDLE"@ {
            Some(DeployStatus::Idle)
        } else {
            None
        }
    }

    /// Parses a persisted status code; a string that is no code of a
    /// status is rejected as a conversion failure.
    pub fn try_from_str(value: &str) -> (r: Result<DeployStatus, ServiceError>)
        ensures
            match r {
                Ok(s) => Self::from_code_spec(value@) == Some(s),
                Err(e) => Self::from_code_spec(value@) is None && e is TryFrom,
            },
    {
        let v = value.to_owned();
        if v == "RUNNING".to_owned() {
            Ok(DeployStatus::Running)
        } else if v == "CANCELLED".to_owned() {
            Ok(DeployStatus::Cancelled)
        } else if v == "SUCCESS".to_owned() {
            Ok(DeployStatus::Success)
        } else if v == "FAILURE".to_owned() {
            Ok(DeployStatus::Failure)
        } else if v == "IDLE".to_owned() {
            Ok(DeployStatus::Idle)
        } else {
            Err(ServiceError::TryFrom {
                field: "status".to_owned(),
                from: v,
                into: "DeployStatus".to_owned(),
                expect: "RUNNING, CANCELLED, SUCCESS, FAILURE, or IDLE".to_owned(),
            })
        }
    }
}

} // verus!
