//! One print device: field access, live queries, job submission, option and
//! media lookup, and persistence.
//!
//! A `Printer` holds the address of a native printer object that the native
//! side owns; copies of a `Printer` name the same object and none of them
//! frees it. Every operation takes, beside its own arguments, what the native
//! entry point handed back, and says what that reply means. An operation on a
//! released printer, or with a string that cannot be marshalled, fails
//! whatever the reply holds: no native call may be made for it.

use vstd::prelude::*;
use vstd::string::StringExecFns;
use crate::error::{joined, CpdbError, ErrorModel, failure};
use crate::frontend::{frontend_refusal, Frontend};
use crate::settings::Options;
use crate::text::{decimal, push_decimal};
use crate::util::{
    bytes_view, cstr_to_string, decoded, first_of, holds_pairs, marshalled, pairs_view,
    terminated, text_view, to_c_options, to_c_string, unterminated, NativeOption,
};

verus! {

/// What a native lookup by name handed back.
#[derive(Debug, Clone, PartialEq, Eq)]
pub enum Lookup {
    /// No record of that name: the pointer was null.
    Missing,
    /// A record whose text field is null.
    Unset,
    /// A record whose text field holds these bytes.
    Text(Vec<u8>),
}

/// The mathematical value of a [`Lookup`].
pub ghost enum LookupModel {
    Missing,
    Unset,
    Text(Seq<u8>),
}

impl View for Lookup {
    type V = LookupModel;

    open spec fn view(&self) -> LookupModel {
        match *self {
            Lookup::Missing => LookupModel::Missing,
            Lookup::Unset => LookupModel::Unset,
            Lookup::Text(bytes) => LookupModel::Text(bytes@),
        }
    }
}

/// The margins of one media size, in the native library's units.
#[derive(Debug, Clone, Copy, PartialEq, Eq)]
pub struct Margins {
    pub top: i32,
    pub bottom: i32,
    pub left: i32,
    pub right: i32,
}

/// The error of reading a field of a released printer.
pub open spec fn null_field(field: Seq<char>) -> ErrorModel {
    ErrorModel::BackendError("Printer object pointer is null when accessing "@ + field)
}

/// The error of an operation on a released printer.
pub open spec fn null_printer(operation: Seq<char>) -> ErrorModel {
    ErrorModel::BackendError("Printer object pointer is null for "@ + operation)
}

/// The failure of a printer operation, decided before the native side is
/// called: a released printer comes first, then what the operation's strings
/// have against being marshalled.
pub open spec fn printer_refusal(
    raw: usize,
    operation: Seq<char>,
    strings: Option<ErrorModel>,
) -> Option<ErrorModel> {
    if raw == 0 {
        Some(null_printer(operation))
    } else {
        strings
    }
}

/// What the strings of a submission have against being marshalled, in the
/// order path, title, options.
pub open spec fn submit_strings(
    file_path: Seq<char>,
    options: Seq<(Seq<char>, Seq<char>)>,
    job_name: Seq<char>,
) -> Option<ErrorModel> {
    first_of(
        first_of(unterminated(file_path), unterminated(job_name)),
        match marshalled(options) {
            Ok(_) => None,
            Err(e) => Some(e),
        },
    )
}

/// The failure of saving a printer through a frontend, decided before the
/// native side is called: a released printer, then a released frontend, then
/// a file name that cannot be marshalled.
pub open spec fn save_refusal(printer: usize, frontend: usize, filename: Seq<char>) -> Option<
    ErrorModel,
> {
    printer_refusal(
        printer,
        "save_to_file"@,
        first_of(frontend_refusal(frontend, "for save_to_file"@), unterminated(filename)),
    )
}

/// A text field of the printer record: an unset field is the empty string,
/// not an error.
pub open spec fn field_text(raw: usize, field: Option<Seq<u8>>, name: Seq<char>) -> Result<
    Seq<char>,
    ErrorModel,
> {
    if raw == 0 {
        Err(null_field(name))
    } else if field is None {
        Ok(Seq::empty())
    } else {
        decoded(field)
    }
}

/// The answer of a live query that returns text: here a null reply is a
/// failed call.
pub open spec fn query_text(refusal: Option<ErrorModel>, reply: Option<Seq<u8>>) -> Result<
    Seq<char>,
    ErrorModel,
> {
    match refusal {
        Some(e) => Err(e),
        None => decoded(reply),
    }
}

/// The answer of a lookup by name: a missing record is an error that names
/// what was looked for, a record without text reads as `unset`.
pub open spec fn lookup_text(
    refusal: Option<ErrorModel>,
    kind: Seq<char>,
    name: Seq<char>,
    unset: Seq<char>,
    reply: LookupModel,
) -> Result<Seq<char>, ErrorModel> {
    match refusal {
        Some(e) => Err(e),
        None => match reply {
            LookupModel::Missing => Err(ErrorModel::BackendError(kind + " '"@ + name + "' not found"@)),
            LookupModel::Unset => Ok(unset),
            LookupModel::Text(bytes) => decoded(Some(bytes)),
        },
    }
}

/// The line that reports four margins.
pub open spec fn margins_text(m: Margins) -> Seq<char> {
    "top: "@ + decimal(m.top as int) + ", bottom: "@ + decimal(m.bottom as int) + ", left: "@
        + decimal(m.left as int) + ", right: "@ + decimal(m.right as int)
}

/// `needle` occurs in `haystack` as a run of consecutive characters.
pub open spec fn occurs_in(needle: Seq<char>, haystack: Seq<char>) -> bool {
    exists|i: int|
        0 <= i <= haystack.len() - needle.len() && #[trigger] haystack.subrange(
            i,
            i + needle.len(),
        ) == needle
}

/// The lowercase form of a text, as `str::to_lowercase` computes it.
pub uninterp spec fn lowercase(s: Seq<char>) -> Seq<char>;

/// `str::to_lowercase`. Believed of std, not proved: that the result is a
/// function of the characters given, which `lowercase` names.
#[verifier::external_body]
fn str_to_lowercase(s: &str) -> (r: String)
    ensures
        r@ == lowercase(s@),
{
    s.to_lowercase()
}

/// `str::contains` with a string pattern. Believed of std, not proved: that
/// it tells whether the pattern occurs somewhere in the text.
#[verifier::external_body]
fn str_contains(haystack: &str, needle: &str) -> (r: bool)
    ensures
        r == occurs_in(needle@, haystack@),
{
    haystack.contains(needle)
}

/// Whether a make-and-model text, already in lowercase, names a PDF device.
pub fn mentions_pdf(lowered: &str) -> (r: bool)
    ensures
        r == occurs_in("pdf"@, lowered@),
{
    str_contains(lowered, "pdf")
}

/// The error that reports a missing record of the given kind and name.
fn not_found(kind: &str, name: &str) -> (e: CpdbError)
    ensures
        e@ == ErrorModel::BackendError(kind@ + " '"@ + name@ + "' not found"@),
{
    let mut detail = joined(kind, " '");
    detail.append(name);
    detail.append("' not found");
    CpdbError::BackendError(detail)
}

/// A print device known to the native library.
#[derive(Debug, Clone, PartialEq, Eq)]
pub struct Printer {
    raw: usize,
}

impl View for Printer {
    type V = usize;

    closed spec fn view(&self) -> usize {
        self.raw
    }
}

impl Printer {
    /// Wraps a native printer object. A null pointer is refused: no printer
    /// is ever made around one.
    pub fn from_raw(raw: usize) -> (r: Result<Printer, CpdbError>)
        ensures
            match r {
                Ok(printer) => raw != 0 && printer@ == raw,
                Err(e) => raw == 0 && e@ == ErrorModel::NullPointer,
            },
    {
        if raw == 0 {
            Err(CpdbError::NullPointer)
        } else {
            Ok(Printer { raw })
        }
    }

    /// The address of the native object, zero once released.
    pub fn as_raw(&self) -> (raw: usize)
        ensures
            raw == self@,
    {
        self.raw
    }

    /// Forgets the native object. The native side owns it, so nothing is
    /// handed out for deletion; every later operation fails.
    pub fn release(&mut self)
        ensures
            final(self)@ == 0,
    {
        self.raw = 0;
    }

    /// Decides whether the named operation may call the native side.
    pub fn check_live(&self, operation: &str) -> (r: Result<(), CpdbError>)
        ensures
            failure(r) == printer_refusal(self@, operation@, None),
    {
        if self.raw == 0 {
            Err(CpdbError::BackendError(joined("Printer object pointer is null for ", operation)))
        } else {
            Ok(())
        }
    }

    /// The terminated buffer to hand to the native side as the argument
    /// `text` of the named operation, where the operation may be called.
    pub fn request(&self, operation: &str, text: &str) -> (r: Result<Vec<u8>, CpdbError>)
        ensures
            failure(r) == printer_refusal(self@, operation@, unterminated(text@)),
            r matches Ok(buffer) ==> terminated(text@) == Ok::<Seq<u8>, ErrorModel>(buffer@),
    {
        match self.check_live(operation) {
            Ok(()) => to_c_string(text),
            Err(e) => Err(e),
        }
    }

    /// Decides whether the named operation may call the native side with
    /// `text` as its argument.
    fn check_call(&self, operation: &str, text: &str) -> (r: Result<(), CpdbError>)
        ensures
            failure(r) == printer_refusal(self@, operation@, unterminated(text@)),
    {
        match self.request(operation, text) {
            Ok(_) => Ok(()),
            Err(e) => Err(e),
        }
    }

    /// Reads a text field of the native printer record.
    pub fn get_string_field(&self, field: Option<&[u8]>, field_name_for_error: &str) -> (r: Result<
        String,
        CpdbError,
    >)
        ensures
            text_view(r) == field_text(self@, bytes_view(field), field_name_for_error@),
    {
        if self.raw == 0 {
            return Err(
                CpdbError::BackendError(
                    joined("Printer object pointer is null when accessing ", field_name_for_error),
                ),
            );
        }
        match field {
            None => Ok(String::new()),
            Some(bytes) => cstr_to_string(Some(bytes)),
        }
    }

    /// The printer's identifier.
    pub fn id(&self, field: Option<&[u8]>) -> (r: Result<String, CpdbError>)
        ensures
            text_view(r) == field_text(self@, bytes_view(field), "id"@),
    {
        self.get_string_field(field, "id")
    }

    /// The printer's name.
    pub fn name(&self, field: Option<&[u8]>) -> (r: Result<String, CpdbError>)
        ensures
            text_view(r) == field_text(self@, bytes_view(field), "name"@),
    {
        self.get_string_field(field, "name")
    }

    /// Where the printer stands.
    pub fn location(&self, field: Option<&[u8]>) -> (r: Result<String, CpdbError>)
        ensures
            text_view(r) == field_text(self@, bytes_view(field), "location"@),
    {
        self.get_string_field(field, "location")
    }

    /// The printer's description.
    pub fn description(&self, field: Option<&[u8]>) -> (r: Result<String, CpdbError>)
        ensures
            text_view(r) == field_text(self@, bytes_view(field), "info"@),
    {
        self.get_string_field(field, "info")
    }

    /// The printer's make and model.
    pub fn make_and_model(&self, field: Option<&[u8]>) -> (r: Result<String, CpdbError>)
        ensures
            text_view(r) == field_text(self@, bytes_view(field), "make_and_model"@),
    {
        self.get_string_field(field, "make_and_model")
    }

    /// The state that the printer record held when it was last filled.
    pub fn current_state_field(&self, field: Option<&[u8]>) -> (r: Result<String, CpdbError>)
        ensures
            text_view(r) == field_text(self@, bytes_view(field), "state_field"@),
    {
        self.get_string_field(field, "state_field")
    }

    /// The name of the backend that serves the printer.
    pub fn backend_name(&self, field: Option<&[u8]>) -> (r: Result<String, CpdbError>)
        ensures
            text_view(r) == field_text(self@, bytes_view(field), "backend_name"@),
    {
        self.get_string_field(field, "backend_name")
    }

    /// The printer's state as the native side reports it now.
    pub fn get_updated_state(&self, reply: Option<&[u8]>) -> (r: Result<String, CpdbError>)
        ensures
            text_view(r) == query_text(
                printer_refusal(self@, "get_updated_state"@, None),
                bytes_view(reply),
            ),
    {
        match self.check_live("get_updated_state") {
            Ok(()) => cstr_to_string(reply),
            Err(e) => Err(e),
        }
    }

    /// Whether the printer takes jobs, from the native flag `accepting`.
    pub fn is_accepting_jobs(&self, accepting: i32) -> (r: Result<bool, CpdbError>)
        ensures
            failure(r) == printer_refusal(self@, "is_accepting_jobs"@, None),
            r matches Ok(yes) ==> yes == (accepting != 0),
    {
        match self.check_live("is_accepting_jobs") {
            Ok(()) => Ok(accepting != 0),
            Err(e) => Err(e),
        }
    }

    /// The identifier of the job that printing `file_path` started, from the
    /// native reply.
    pub fn print_single_file(&self, file_path: &str, reply: Option<&[u8]>) -> (r: Result<
        String,
        CpdbError,
    >)
        ensures
            text_view(r) == query_text(
                printer_refusal(self@, "print_single_file"@, unterminated(file_path@)),
                bytes_view(reply),
            ),
    {
        match self.check_call("print_single_file", file_path) {
            Ok(()) => cstr_to_string(reply),
            Err(e) => Err(e),
        }
    }

    /// Whether the printer names itself a PDF device. A make-and-model field
    /// that cannot be read counts as empty.
    pub fn accepts_pdf(&self, make_and_model: Option<&[u8]>) -> (r: Result<bool, CpdbError>)
        ensures
            r matches Ok(yes) && yes == occurs_in(
                "pdf"@,
                lowercase(
                    match field_text(self@, bytes_view(make_and_model), "make_and_model"@) {
                        Ok(model) => model,
                        Err(_) => Seq::empty(),
                    },
                ),
            ),
    {
        let model = match self.make_and_model(make_and_model) {
            Ok(model) => model,
            Err(_) => String::new(),
        };
        let lowered = str_to_lowercase(model.as_str());
        Ok(mentions_pdf(lowered.as_str()))
    }

    /// The terminated buffers and native option records to hand to the
    /// native side for submitting `file_path` under the title `job_name`
    /// with the given options, where that may be done.
    pub fn submit_request(&self, file_path: &str, options: &[(&str, &str)], job_name: &str) -> (r:
        Result<(Vec<u8>, Vec<u8>, Vec<NativeOption>), CpdbError>)
        ensures
            failure(r) == printer_refusal(
                self@,
                "submit_job"@,
                submit_strings(file_path@, pairs_view(options@), job_name@),
            ),
            r matches Ok(parts) ==> {
                &&& terminated(file_path@) == Ok::<Seq<u8>, ErrorModel>(parts.0@)
                &&& terminated(job_name@) == Ok::<Seq<u8>, ErrorModel>(parts.1@)
                &&& marshalled(pairs_view(options@)) is Ok
                &&& holds_pairs(parts.2@, marshalled(pairs_view(options@))->Ok_0)
            },
    {
        let path = match self.request("submit_job", file_path) {
            Ok(buffer) => buffer,
            Err(e) => {
                return Err(e);
            },
        };
        let title = match to_c_string(job_name) {
            Ok(buffer) => buffer,
            Err(e) => {
                return Err(e);
            },
        };
        match to_c_options(options) {
            Ok(records) => Ok((path, title, records)),
            Err(e) => Err(e),
        }
    }

    /// The outcome of submitting `file_path` under the title `job_name` with
    /// the given options: the native reply is the new job's identifier, and a
    /// null reply means that nothing was submitted.
    pub fn submit_job(
        &self,
        file_path: &str,
        options: &[(&str, &str)],
        job_name: &str,
        reply: Option<&[u8]>,
    ) -> (r: Result<(), CpdbError>)
        ensures
            failure(r) == first_of(
                printer_refusal(
                    self@,
                    "submit_job"@,
                    submit_strings(file_path@, pairs_view(options@), job_name@),
                ),
                if reply is None {
                    Some(ErrorModel::BackendError("Job submission failed - no job ID returned"@))
                } else {
                    None
                },
            ),
    {
        match self.submit_request(file_path, options, job_name) {
            Ok(_) => {},
            Err(e) => {
                return Err(e);
            },
        }
        match reply {
            None => Err(
                CpdbError::BackendError("Job submission failed - no job ID returned".to_owned()),
            ),
            Some(_) => Ok(()),
        }
    }

    /// Another `Printer` for the same native object.
    pub fn try_clone(&self) -> (r: Result<Printer, CpdbError>)
        ensures
            match r {
                Ok(printer) => self@ != 0 && printer@ == self@,
                Err(e) => self@ == 0 && e@ == ErrorModel::BackendError(
                    "Cannot clone null printer object"@,
                ),
            },
    {
        if self.raw == 0 {
            return Err(CpdbError::BackendError("Cannot clone null printer object".to_owned()));
        }
        Ok(Printer { raw: self.raw })
    }

    /// Whether a fresh option set is to be made for what the native side
    /// reported in `all_options`: only for a live printer, and only where it
    /// reported anything.
    pub fn wants_option_set(&self, all_options: usize) -> (wanted: bool)
        ensures
            wanted == (self@ != 0 && all_options != 0),
    {
        self.raw != 0 && all_options != 0
    }

    /// The option sets of the printer: none where the native side reported
    /// none (`all_options` null), else the one fresh set `fresh` that the
    /// native constructor made to hold them.
    pub fn get_all_options(&self, all_options: usize, fresh: usize) -> (r: Result<
        Vec<Options>,
        CpdbError,
    >)
        ensures
            match r {
                Ok(sets) => self@ != 0 && if all_options == 0 {
                    sets@.len() == 0
                } else {
                    fresh != 0 && sets@.len() == 1 && sets@[0]@ == fresh
                },
                Err(e) => if self@ == 0 {
                    e@ == null_printer("get_all_options"@)
                } else {
                    all_options != 0 && fresh == 0 && e@ == ErrorModel::NullPointer
                },
            },
    {
        match self.check_live("get_all_options") {
            Ok(()) => {},
            Err(e) => {
                return Err(e);
            },
        }
        let mut sets: Vec<Options> = Vec::new();
        if self.wants_option_set(all_options) {
            match Options::new(fresh) {
                Ok(set) => {
                    sets.push(set);
                },
                Err(e) => {
                    return Err(e);
                },
            }
        }
        Ok(sets)
    }

    /// The value of the option `option_name`, from the native record.
    pub fn get_option(&self, option_name: &str, reply: &Lookup) -> (r: Result<String, CpdbError>)
        ensures
            text_view(r) == lookup_text(
                printer_refusal(self@, "get_option"@, unterminated(option_name@)),
                "Option"@,
                option_name@,
                "NA"@,
                reply@,
            ),
    {
        match self.check_call("get_option", option_name) {
            Ok(()) => {},
            Err(e) => {
                return Err(e);
            },
        }
        match reply {
            Lookup::Missing => Err(not_found("Option", option_name)),
            Lookup::Unset => Ok("NA".to_owned()),
            Lookup::Text(bytes) => cstr_to_string(Some(bytes.as_slice())),
        }
    }

    /// The default value of the option `option_name`, from the native reply.
    pub fn get_default(&self, option_name: &str, reply: Option<&[u8]>) -> (r: Result<
        String,
        CpdbError,
    >)
        ensures
            text_view(r) == query_text(
                printer_refusal(self@, "get_default"@, unterminated(option_name@)),
                bytes_view(reply),
            ),
    {
        match self.check_call("get_default", option_name) {
            Ok(()) => cstr_to_string(reply),
            Err(e) => Err(e),
        }
    }

    /// The current value of the option `option_name`, from the native reply.
    pub fn get_current(&self, option_name: &str, reply: Option<&[u8]>) -> (r: Result<
        String,
        CpdbError,
    >)
        ensures
            text_view(r) == query_text(
                printer_refusal(self@, "get_current"@, unterminated(option_name@)),
                bytes_view(reply),
            ),
    {
        match self.check_call("get_current", option_name) {
            Ok(()) => cstr_to_string(reply),
            Err(e) => Err(e),
        }
    }

    /// The name of the media `media_name` as the device knows it, from the
    /// native record. A name that the device does not know is an error.
    pub fn get_media(&self, media_name: &str, reply: &Lookup) -> (r: Result<String, CpdbError>)
        ensures
            text_view(r) == lookup_text(
                printer_refusal(self@, "get_media"@, unterminated(media_name@)),
                "Media"@,
                media_name@,
                "Unknown"@,
                reply@,
            ),
    {
        match self.check_call("get_media", media_name) {
            Ok(()) => {},
            Err(e) => {
                return Err(e);
            },
        }
        match reply {
            Lookup::Missing => Err(not_found("Media", media_name)),
            Lookup::Unset => Ok("Unknown".to_owned()),
            Lookup::Text(bytes) => cstr_to_string(Some(bytes.as_slice())),
        }
    }

    /// The width and length of the media `media_name`, from the native
    /// status and the two values that the call filled in.
    pub fn get_media_size(&self, media_name: &str, status: i32, width: i32, length: i32) -> (r:
        Result<(i32, i32), CpdbError>)
        ensures
            failure(r) == first_of(
                printer_refusal(self@, "get_media_size"@, unterminated(media_name@)),
                if status == 0 {
                    None
                } else {
                    Some(
                        ErrorModel::BackendError(
                            "Failed to get media size for '"@ + media_name@ + "'"@,
                        ),
                    )
                },
            ),
            r matches Ok(size) ==> size == (width, length),
    {
        match self.check_call("get_media_size", media_name) {
            Ok(()) => {},
            Err(e) => {
                return Err(e);
            },
        }
        if status == 0 {
            Ok((width, length))
        } else {
            let mut detail = joined("Failed to get media size for '", media_name);
            detail.append("'");
            Err(CpdbError::BackendError(detail))
        }
    }

    /// The margins of the media `media_name` in one line, from the native
    /// status and the margins that the call pointed to.
    pub fn get_media_margins(&self, media_name: &str, status: i32, margins: Option<Margins>) -> (r:
        Result<String, CpdbError>)
        ensures
            text_view(r) == match printer_refusal(
                self@,
                "get_media_margins"@,
                unterminated(media_name@),
            ) {
                Some(e) => Err(e),
                None => if status == 0 && margins is Some {
                    Ok(margins_text(margins->Some_0))
                } else {
                    Err(
                        ErrorModel::BackendError(
                            "Failed to get media margins for '"@ + media_name@ + "'"@,
                        ),
                    )
                },
            },
    {
        match self.check_call("get_media_margins", media_name) {
            Ok(()) => {},
            Err(e) => {
                return Err(e);
            },
        }
        match margins {
            Some(m) if status == 0 => {
                let mut out = String::from_str("top: ");
                push_decimal(&mut out, m.top as i64);
                out.append(", bottom: ");
                push_decimal(&mut out, m.bottom as i64);
                out.append(", left: ");
                push_decimal(&mut out, m.left as i64);
                out.append(", right: ");
                push_decimal(&mut out, m.right as i64);
                Ok(out)
            },
            _ => {
                let mut detail = joined("Failed to get media margins for '", media_name);
                detail.append("'");
                Err(CpdbError::BackendError(detail))
            },
        }
    }

    /// The terminated buffer to hand to the native side for saving the
    /// printer to the file `filename` through `frontend`, where that may be
    /// done: both handles have to be live.
    pub fn save_request(&self, filename: &str, frontend: &Frontend) -> (r: Result<
        Vec<u8>,
        CpdbError,
    >)
        ensures
            failure(r) == save_refusal(self@, frontend@, filename@),
            r matches Ok(buffer) ==> terminated(filename@) == Ok::<Seq<u8>, ErrorModel>(buffer@),
    {
        match self.check_live("save_to_file") {
            Ok(()) => {},
            Err(e) => {
                return Err(e);
            },
        }
        match frontend.check_live("for save_to_file") {
            Ok(()) => to_c_string(filename),
            Err(e) => Err(e),
        }
    }

    /// Decides whether the printer may be saved to the file `filename`
    /// through `frontend`.
    pub fn save_to_file(&self, filename: &str, frontend: &Frontend) -> (r: Result<(), CpdbError>)
        ensures
            failure(r) == save_refusal(self@, frontend@, filename@),
    {
        match self.save_request(filename, frontend) {
            Ok(_) => Ok(()),
            Err(e) => Err(e),
        }
    }

    /// Wraps the printer that the native side restored from the file
    /// `filename`: either a whole printer or an error.
    pub fn load_from_file(filename: &str, printer_ptr: usize) -> (r: Result<Printer, CpdbError>)
        ensures
            failure(r) == first_of(
                unterminated(filename@),
                if printer_ptr == 0 {
                    Some(ErrorModel::NullPointer)
                } else {
                    None
                },
            ),
            r matches Ok(printer) ==> printer@ == printer_ptr,
    {
        match to_c_string(filename) {
            Ok(_) => Printer::from_raw(printer_ptr),
            Err(e) => Err(e),
        }
    }
}

} // verus!
