//! The discovery and connection context.

use vstd::prelude::*;
use crate::error::{joined, CpdbError, ErrorModel, failure};
use crate::printer::Printer;
use crate::settings::released;
use crate::util::{first_of, terminated, to_c_string, unterminated};

verus! {

/// The error of an operation on a released frontend.
pub open spec fn null_frontend(situation: Seq<char>) -> ErrorModel {
    ErrorModel::FrontendError("Frontend raw pointer is null "@ + situation)
}

/// The failure of a frontend operation, decided before the native side is
/// called.
pub open spec fn frontend_refusal(raw: usize, situation: Seq<char>) -> Option<ErrorModel> {
    if raw == 0 {
        Some(null_frontend(situation))
    } else {
        None
    }
}

/// The failure of looking a printer up by name, if it fails: a released
/// frontend, a name that cannot be marshalled, or a printer that the native
/// side did not find.
pub open spec fn lookup_failure(raw: usize, name: Seq<char>, found: usize) -> Option<ErrorModel> {
    first_of(
        frontend_refusal(raw, "for get_printer"@),
        first_of(
            unterminated(name),
            if found == 0 {
                Some(ErrorModel::InvalidPrinter)
            } else {
                None
            },
        ),
    )
}

/// The handles among `surfaced` that are not null, in the order in which
/// they were reported.
pub open spec fn live_handles(surfaced: Seq<usize>) -> Seq<usize> {
    surfaced.filter(|raw: usize| raw != 0)
}

/// The native objects behind a list of printers.
pub open spec fn handles_of(printers: Seq<Printer>) -> Seq<usize> {
    Seq::new(printers.len(), |i: int| printers[i]@)
}

/// A session with the native print system, the single owner of one native
/// frontend object.
#[derive(Debug, PartialEq, Eq)]
pub struct Frontend {
    raw: usize,
}

impl View for Frontend {
    type V = usize;

    closed spec fn view(&self) -> usize {
        self.raw
    }
}

impl Frontend {
    /// The address of the native object, zero once released.
    pub fn as_raw(&self) -> (raw: usize)
        ensures
            raw == self@,
    {
        self.raw
    }

    /// Wraps the object that the native constructor returned. A null pointer
    /// is refused: no frontend is ever made around one.
    pub fn new(raw_frontend: usize) -> (r: Result<Frontend, CpdbError>)
        ensures
            match r {
                Ok(frontend) => raw_frontend != 0 && frontend@ == raw_frontend,
                Err(e) => raw_frontend == 0 && e@ == ErrorModel::NullPointer,
            },
    {
        if raw_frontend == 0 {
            Err(CpdbError::NullPointer)
        } else {
            Ok(Frontend { raw: raw_frontend })
        }
    }

    /// Decides whether an operation may call the native side with this
    /// frontend; `situation` says in the error which one was refused.
    pub fn check_live(&self, situation: &str) -> (r: Result<(), CpdbError>)
        ensures
            failure(r) == frontend_refusal(self@, situation@),
    {
        if self.raw == 0 {
            Err(CpdbError::FrontendError(joined("Frontend raw pointer is null ", situation)))
        } else {
            Ok(())
        }
    }

    /// Decides whether the frontend may be connected to the message bus.
    pub fn connect_to_dbus(&self) -> (r: Result<(), CpdbError>)
        ensures
            failure(r) == frontend_refusal(self@, "before calling cpdbConnectToDBus"@),
    {
        self.check_live("before calling cpdbConnectToDBus")
    }

    /// Decides whether the frontend may be disconnected from the message bus.
    pub fn disconnect_from_dbus(&self) -> (r: Result<(), CpdbError>)
        ensures
            failure(r) == frontend_refusal(self@, "before calling cpdbDisconnectFromDBus"@),
    {
        self.check_live("before calling cpdbDisconnectFromDBus")
    }

    /// Wraps the frontend that the native side set up for listing printers.
    /// A null pointer is refused.
    pub fn start_listing(new_frontend_ptr: usize) -> (r: Result<Frontend, CpdbError>)
        ensures
            match r {
                Ok(frontend) => new_frontend_ptr != 0 && frontend@ == new_frontend_ptr,
                Err(e) => new_frontend_ptr == 0 && e@ == ErrorModel::NullPointer,
            },
    {
        Frontend::new(new_frontend_ptr)
    }

    /// Decides whether the native side may be told to stop listing printers.
    pub fn stop_listing_printers(&self) -> (r: Result<(), CpdbError>)
        ensures
            failure(r) == frontend_refusal(self@, "before calling cpdbStopListingPrinters"@),
    {
        self.check_live("before calling cpdbStopListingPrinters")
    }

    /// The printers that the native side surfaced while it enumerated them,
    /// in that order. A null handle among them is no printer and is left out.
    pub fn get_printers(&self, surfaced: &[usize]) -> (r: Result<Vec<Printer>, CpdbError>)
        ensures
            failure(r) == frontend_refusal(self@, "for get_printers"@),
            r matches Ok(printers) ==> handles_of(printers@) == live_handles(surfaced@),
    {
        match self.check_live("for get_printers") {
            Ok(()) => {},
            Err(e) => {
                return Err(e);
            },
        }
        let mut printers: Vec<Printer> = Vec::new();
        let mut i: usize = 0;
        while i < surfaced.len()
            invariant
                i <= surfaced.len(),
                handles_of(printers@) == live_handles(surfaced@.take(i as int)),
            decreases surfaced.len() - i,
        {
            let ghost before = printers@;
            proof {
                assert(surfaced@.take(i + 1) =~= surfaced@.take(i as int).push(surfaced@[i as int]));
                live_handles_push(surfaced@.take(i as int), surfaced@[i as int]);
            }
            match Printer::from_raw(surfaced[i]) {
                Ok(printer) => {
                    printers.push(printer);
                    assert(handles_of(printers@) =~= handles_of(before).push(surfaced@[i as int]));
                },
                Err(_) => {},
            }
            i += 1;
        }
        assert(surfaced@.take(i as int) =~= surfaced@);
        Ok(printers)
    }

    /// The terminated buffer to hand to the native side for looking up the
    /// printer `name`, where that may be done.
    pub fn lookup_request(&self, name: &str) -> (r: Result<Vec<u8>, CpdbError>)
        ensures
            failure(r) == first_of(
                frontend_refusal(self@, "for get_printer"@),
                unterminated(name@),
            ),
            r matches Ok(buffer) ==> terminated(name@) == Ok::<Seq<u8>, ErrorModel>(buffer@),
    {
        match self.check_live("for get_printer") {
            Ok(()) => to_c_string(name),
            Err(e) => Err(e),
        }
    }

    /// The printer that a lookup of `name` found, from the native reply. A
    /// printer that the native side does not know is an invalid printer, not
    /// a failure of the frontend.
    pub fn get_printer(&self, name: &str, found: usize) -> (r: Result<Printer, CpdbError>)
        ensures
            failure(r) == lookup_failure(self@, name@, found),
            r matches Ok(printer) ==> printer@ == found,
    {
        match self.lookup_request(name) {
            Ok(_) => {},
            Err(e) => {
                return Err(e);
            },
        }
        if found == 0 {
            Err(CpdbError::InvalidPrinter)
        } else {
            Printer::from_raw(found)
        }
    }

    /// Gives up the native object: hands out its address for deletion and
    /// forgets it, so that a second release hands out nothing.
    pub fn release(&mut self) -> (r: Option<usize>)
        ensures
            r == released(old(self)@),
            final(self)@ == 0,
    {
        let raw = self.raw;
        self.raw = 0;
        if raw == 0 {
            None
        } else {
            Some(raw)
        }
    }
}

/// Filtering a list that grew by one handle keeps that handle exactly where
/// it is not null.
proof fn live_handles_push(front: Seq<usize>, last: usize)
    ensures
        live_handles(front.push(last)) == if last != 0 {
            live_handles(front).push(last)
        } else {
            live_handles(front)
        },
{
    reveal(Seq::filter);
    assert(front.push(last).drop_last() =~= front);
}

} // verus!
