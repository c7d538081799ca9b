//! The standalone print backend. The native library that this crate binds
//! has no such object, so every operation reports that it is unsupported.

use vstd::prelude::*;
use crate::error::{CpdbError, ErrorModel};

verus! {

/// A named print backend.
#[derive(Debug, PartialEq, Eq)]
pub struct Backend {}

impl Backend {
    /// Opens the backend of the given name: always unsupported.
    pub fn new(_backend_name: &str) -> (r: Result<Backend, CpdbError>)
        ensures
            r matches Err(e) && e@ == ErrorModel::Unsupported,
    {
        Err(CpdbError::Unsupported)
    }

    /// Submits a file to a printer through the backend: always unsupported.
    pub fn submit_job(
        &self,
        _printer_name: &str,
        _file_path: &str,
        _options: &[(&str, &str)],
        _job_name: &str,
    ) -> (r: Result<(), CpdbError>)
        ensures
            r matches Err(e) && e@ == ErrorModel::Unsupported,
    {
        Err(CpdbError::Unsupported)
    }
}

} // verus!
