use vstd::prelude::*;

verus! {

/// Why a monitor operation failed.
///
/// The transport reports only success or failure, so "feature absent",
/// "monitor busy" and "monitor unplugged during the call" cannot be told
/// apart: they all arrive as the same variant.
#[derive(Debug, Clone, PartialEq, Eq)]
pub enum MonitorError {
    /// No display output or endpoint matched; carries what was looked for.
    MonitorNotFound(String),
    /// The transport rejected a feature query.
    VcpNotSupported,
    /// Any other single transport call failed; carries which one.
    UnsupportedOperation(String),
}

/// Mathematical value of a [`MonitorError`].
pub enum ErrorModel {
    MonitorNotFound(Seq<char>),
    VcpNotSupported,
    UnsupportedOperation(Seq<char>),
}

impl View for MonitorError {
    type V = ErrorModel;

    open spec fn view(&self) -> ErrorModel {
        match self {
            MonitorError::MonitorNotFound(identifier) => ErrorModel::MonitorNotFound(identifier@),
            MonitorError::VcpNotSupported => ErrorModel::VcpNotSupported,
            MonitorError::UnsupportedOperation(detail) => ErrorModel::UnsupportedOperation(detail@),
        }
    }
}

/// Outcome of a transport call that reports nothing but success: `Ok` when
/// it succeeded, `UnsupportedOperation(detail)` when it did not.
pub open spec fn status_outcome(succeeded: bool, detail: Seq<char>) -> Result<(), ErrorModel> {
    if succeeded {
        Ok(())
    } else {
        Err(ErrorModel::UnsupportedOperation(detail))
    }
}

/// A result with its error taken as a mathematical value.
pub open spec fn outcome<T>(r: Result<T, MonitorError>) -> Result<T, ErrorModel> {
    match r {
        Ok(value) => Ok(value),
        Err(e) => Err(e@),
    }
}

/// A textual result as a mathematical value.
pub open spec fn text_outcome(r: Result<String, MonitorError>) -> Result<Seq<char>, ErrorModel> {
    match r {
        Ok(text) => Ok(text@),
        Err(e) => Err(e@),
    }
}

impl MonitorError {
    /// Turns the success flag of a transport call into a result.
    pub fn check_status(succeeded: bool, detail: &str) -> (r: Result<(), MonitorError>)
        ensures
            outcome(r) == status_outcome(succeeded, detail@),
    {
        if succeeded {
            Ok(())
        } else {
            Err(MonitorError::UnsupportedOperation(detail.to_string()))
        }
    }
}

} // verus!
