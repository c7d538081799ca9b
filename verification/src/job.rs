//! One submission pass of a file to a printer.
//!
//! A job is created around a native job object, may be submitted once, and
//! may be cancelled any number of times: the first cancellation hands the
//! native object out to be cancelled and freed, every later one is a no-op.

use vstd::prelude::*;
use crate::error::{status_error, CpdbError, ErrorModel, failure};
use crate::settings::released;
use crate::util::{
    first_of, holds_pairs, marshalled, pairs_view, terminated, to_c_options, to_c_string,
    unterminated, NativeOption,
};

verus! {

/// The mathematical value of a [`PrintJob`].
pub ghost struct JobModel {
    /// The address of the native job object, zero once it was handed out.
    pub raw: usize,
    /// The identifier that a successful submission assigned.
    pub id: Option<i32>,
}

/// What the strings of a new job have against being marshalled, in the
/// order printer, options, title.
pub open spec fn job_strings(
    printer_name: Seq<char>,
    options: Seq<(Seq<char>, Seq<char>)>,
    job_name: Seq<char>,
) -> Option<ErrorModel> {
    first_of(
        first_of(
            unterminated(printer_name),
            match marshalled(options) {
                Ok(_) => None,
                Err(e) => Some(e),
            },
        ),
        unterminated(job_name),
    )
}

/// The failure of a submission, decided before the native side is called: a
/// job that was cancelled, a job that was submitted before, or a path that
/// cannot be marshalled.
pub open spec fn submit_refusal(job: JobModel, file_path: Seq<char>) -> Option<ErrorModel> {
    if job.raw == 0 {
        Some(ErrorModel::NullPointer)
    } else if job.id is Some {
        Some(ErrorModel::JobFailed("Print job was already submitted"@))
    } else {
        unterminated(file_path)
    }
}

/// The failure of submitting a file for the job `job`, if it fails: what
/// refuses the submission beforehand, or the status that the native side
/// reported.
pub open spec fn submit_failure(job: JobModel, file_path: Seq<char>, reply: Result<i32, i32>) -> Option<
    ErrorModel,
> {
    first_of(
        submit_refusal(job, file_path),
        match reply {
            Ok(_) => None,
            Err(status) => Some(status_error(status as int, "submit_with_file"@)),
        },
    )
}

/// The job after a submission with the given outcome.
pub open spec fn after_submit(job: JobModel, file_path: Seq<char>, reply: Result<i32, i32>) -> JobModel {
    if submit_failure(job, file_path, reply) is None {
        JobModel { raw: job.raw, id: Some(reply->Ok_0) }
    } else {
        job
    }
}

/// The job after a cancellation: no native object, no identifier.
pub open spec fn after_cancel(job: JobModel) -> JobModel {
    JobModel { raw: 0, id: None }
}

/// The native object that a cancellation of `job` hands out to be cancelled
/// and freed.
pub open spec fn cancel_hands_out(job: JobModel) -> Option<usize> {
    released(job.raw)
}

/// A print job, the single owner of one native job object.
#[derive(Debug, PartialEq, Eq)]
pub struct PrintJob {
    raw: usize,
    id: Option<i32>,
}

impl View for PrintJob {
    type V = JobModel;

    closed spec fn view(&self) -> JobModel {
        JobModel { raw: self.raw, id: self.id }
    }
}

impl PrintJob {
    /// The terminated buffers and native option records to hand to the
    /// native side for making a job for one printer, one option set and one
    /// title, where they can be marshalled.
    pub fn new_request(printer_name: &str, options: &[(&str, &str)], job_name: &str) -> (r: Result<
        (Vec<u8>, Vec<NativeOption>, Vec<u8>),
        CpdbError,
    >)
        ensures
            failure(r) == job_strings(printer_name@, pairs_view(options@), job_name@),
            r matches Ok(parts) ==> {
                &&& terminated(printer_name@) == Ok::<Seq<u8>, ErrorModel>(parts.0@)
                &&& marshalled(pairs_view(options@)) is Ok
                &&& holds_pairs(parts.1@, marshalled(pairs_view(options@))->Ok_0)
                &&& terminated(job_name@) == Ok::<Seq<u8>, ErrorModel>(parts.2@)
            },
    {
        let name = match to_c_string(printer_name) {
            Ok(buffer) => buffer,
            Err(e) => {
                return Err(e);
            },
        };
        let records = match to_c_options(options) {
            Ok(records) => records,
            Err(e) => {
                return Err(e);
            },
        };
        match to_c_string(job_name) {
            Ok(title) => Ok((name, records, title)),
            Err(e) => Err(e),
        }
    }

    /// Wraps the native job object `raw` that was made for one printer, one
    /// option set and one title. A null pointer is refused: no job is ever
    /// made around one.
    pub fn new(printer_name: &str, options: &[(&str, &str)], job_name: &str, raw: usize) -> (r:
        Result<PrintJob, CpdbError>)
        ensures
            failure(r) == first_of(
                job_strings(printer_name@, pairs_view(options@), job_name@),
                if raw == 0 {
                    Some(ErrorModel::NullPointer)
                } else {
                    None
                },
            ),
            r matches Ok(job) ==> job@ == (JobModel { raw, id: None }),
    {
        match PrintJob::new_request(printer_name, options, job_name) {
            Ok(_) => {},
            Err(e) => {
                return Err(e);
            },
        }
        if raw == 0 {
            Err(CpdbError::NullPointer)
        } else {
            Ok(PrintJob { raw, id: None })
        }
    }

    /// The terminated buffer to hand to the native side for submitting
    /// `file_path`, where the job may be submitted: it was neither cancelled
    /// nor submitted before.
    pub fn check_submit(&self, file_path: &str) -> (r: Result<Vec<u8>, CpdbError>)
        ensures
            failure(r) == submit_refusal(self@, file_path@),
            r matches Ok(buffer) ==> terminated(file_path@) == Ok::<Seq<u8>, ErrorModel>(buffer@),
    {
        if self.raw == 0 {
            return Err(CpdbError::NullPointer);
        }
        if self.id.is_some() {
            return Err(CpdbError::JobFailed("Print job was already submitted".to_owned()));
        }
        to_c_string(file_path)
    }

    /// Records the outcome of submitting `file_path`: the identifier that the
    /// native side assigned, or the status with which it refused.
    pub fn submit_with_file(&mut self, file_path: &str, reply: Result<i32, i32>) -> (r: Result<
        (),
        CpdbError,
    >)
        ensures
            failure(r) == submit_failure(old(self)@, file_path@, reply),
            final(self)@ == after_submit(old(self)@, file_path@, reply),
    {
        match self.check_submit(file_path) {
            Ok(_) => {},
            Err(e) => {
                return Err(e);
            },
        }
        match reply {
            Ok(id) => {
                self.id = Some(id);
                Ok(())
            },
            Err(status) => Err(CpdbError::from_status(status, "submit_with_file")),
        }
    }

    /// The identifier of the submitted job: none before a successful
    /// submission and none after a cancellation.
    pub fn id(&self) -> (id: Option<i32>)
        ensures
            id == self@.id,
    {
        self.id
    }

    /// The address of the native object, zero once cancelled.
    pub fn as_raw(&self) -> (raw: usize)
        ensures
            raw == self@.raw,
    {
        self.raw
    }

    /// Cancels the job. It always succeeds: the first call hands out the
    /// native object to be cancelled and freed, a later call hands out
    /// nothing.
    pub fn cancel(&mut self) -> (r: Result<Option<usize>, CpdbError>)
        ensures
            r matches Ok(handle) && handle == cancel_hands_out(old(self)@),
            final(self)@ == after_cancel(old(self)@),
    {
        Ok(self.release())
    }

    /// Tears the job down: what a cancellation does, with nothing that could
    /// fail.
    pub fn release(&mut self) -> (r: Option<usize>)
        ensures
            r == cancel_hands_out(old(self)@),
            final(self)@ == after_cancel(old(self)@),
    {
        let raw = self.raw;
        self.raw = 0;
        self.id = None;
        if raw == 0 {
            None
        } else {
            Some(raw)
        }
    }
}

/// Cancelling twice is cancelling once: the second cancellation hands out
/// nothing, so no native object is ever freed twice, and it leaves the job
/// as the first left it.
pub proof fn lemma_cancel_is_idempotent(job: JobModel)
    ensures
        cancel_hands_out(after_cancel(job)) is None,
        after_cancel(after_cancel(job)) == after_cancel(job),
        after_cancel(job).id is None,
{
}

/// Only a successful submission assigns an identifier: a failed one leaves
/// the job as it was.
pub proof fn lemma_only_submit_assigns_id(job: JobModel, file_path: Seq<char>, reply: Result<i32, i32>)
    ensures
        submit_failure(job, file_path, reply) is Some ==> after_submit(job, file_path, reply) == job,
        submit_failure(job, file_path, reply) is None ==> after_submit(job, file_path, reply).id
            == Some(reply->Ok_0),
{
}

} // verus!
