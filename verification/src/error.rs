use vstd::prelude::*;

verus! {

/// Failures surfaced by the exporter pipeline.
///
/// `CannotFindCache` reports a missing user cache directory during
/// installation discovery; `FailedToReadMasterKey` reports a state file that
/// could not be read or parsed; `IO` carries any traversal, copy or storage
/// failure as text.
#[derive(Debug, Clone)]
pub enum ExporterError {
    CannotFindCache(String),
    FailedToReadMasterKey(String),
    IO(String),
}

impl ExporterError {
    /// The message carried by this error.
    pub fn message(&self) -> (m: &String)
        ensures
            m@ == self.spec_message(),
    {
        match self {
            ExporterError::CannotFindCache(m) => m,
            ExporterError::FailedToReadMasterKey(m) => m,
            ExporterError::IO(m) => m,
        }
    }

    pub open spec fn spec_message(self) -> Seq<char> {
        match self {
            ExporterError::CannotFindCache(m) => m@,
            ExporterError::FailedToReadMasterKey(m) => m@,
            ExporterError::IO(m) => m@,
        }
    }
}

} // verus!
