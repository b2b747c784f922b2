//! The errors that reconciliation reports.
use vstd::prelude::*;
use vstd::string::*;

verus! {

/// All errors possible to occur during reconciliation.
pub enum Error {
    /// An error reported by the Kubernetes API, with its description.
    Kube { source: String },
    /// An operator that a service depends on has not been installed in the
    /// cluster.
    DependencyMissing(&'static str),
    /// A manifest that is not valid JSON, with the parser's description.
    Yaml { source: String },
    /// Any other error that does not map cleanly to the variants above.
    Other(String),
}

/// The text of an error: what `Display` shows of it.
pub open spec fn error_message(e: Error) -> Seq<char> {
    match e {
        Error::Kube { source } => "Kubernetes reported error: "@ + source@,
        Error::DependencyMissing(hint) => hint@,
        Error::Yaml { source } => "Invalid Kubernetes Yaml: "@ + source@,
        Error::Other(text) => text@,
    }
}

impl Error {
    /// The text of the error.
    pub fn message(&self) -> (m: String)
        ensures
            m@ == error_message(*self),
    {
        match self {
            Error::Kube { source } => String::from_str("Kubernetes reported error: ").concat(
                source.as_str(),
            ),
            Error::DependencyMissing(hint) => String::from_str(hint),
            Error::Yaml { source } => String::from_str("Invalid Kubernetes Yaml: ").concat(
                source.as_str(),
            ),
            Error::Other(text) => text.clone(),
        }
    }
}

/// How a call to the Kubernetes API failed: with a status from the API
/// server, or otherwise.
pub enum ApiFailure {
    Api { code: u16, message: String },
    Other { message: String },
}

} // verus!
