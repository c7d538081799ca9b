//! Settings, option sets and media descriptors: three kinds of native value
//! containers, each wrapper the single owner of one native object.
//!
//! A wrapper holds the address of its native object, or zero once it has been
//! released. Creating, copying, filling and deleting the native object is the
//! native library's work; what is decided here is whether a call may be made
//! at all, what a native reply means, and that a handle is handed out for
//! deletion exactly once.

use vstd::prelude::*;
use crate::error::{CpdbError, ErrorModel, failure};
use crate::util::{first_of, terminated, to_c_string, unterminated};

verus! {

/// What releasing a wrapper hands out: the address to delete, once, and
/// nothing for a wrapper that was released before.
pub open spec fn released(raw: usize) -> Option<usize> {
    if raw == 0 {
        None
    } else {
        Some(raw)
    }
}

/// What releasing each wrapper of a list hands out, wrapper by wrapper.
pub open spec fn all_released(raws: Seq<usize>) -> Seq<Option<usize>> {
    Seq::new(raws.len(), |i: int| released(raws[i]))
}

/// Release balances acquisition: of as many live wrappers as there are, each
/// hands out its own native object and no other, so that many objects are
/// released, and what the wrappers are afterwards hands out nothing a second
/// time.
pub proof fn lemma_release_balances(raws: Seq<usize>)
    requires
        forall|i: int| 0 <= i < raws.len() ==> raws[i] != 0,
    ensures
        all_released(raws) == Seq::new(raws.len(), |i: int| Some(raws[i])),
        all_released(Seq::new(raws.len(), |i: int| 0usize)) == Seq::new(
            raws.len(),
            |i: int| None::<usize>,
        ),
{
    assert(all_released(raws) =~= Seq::new(raws.len(), |i: int| Some(raws[i])));
    assert(all_released(Seq::new(raws.len(), |i: int| 0usize)) =~= Seq::new(
        raws.len(),
        |i: int| None::<usize>,
    ));
}

/// The failure of an operation on a settings object, decided before the
/// native side is called: a released wrapper comes first, then what its
/// strings have against being marshalled.
pub open spec fn settings_refusal(raw: usize, strings: Option<ErrorModel>) -> Option<ErrorModel> {
    if raw == 0 {
        Some(ErrorModel::NullPointer)
    } else {
        strings
    }
}

/// A set of key-value settings held by the native library.
#[derive(Debug, PartialEq, Eq)]
pub struct Settings {
    raw: usize,
}

impl View for Settings {
    type V = usize;

    closed spec fn view(&self) -> usize {
        self.raw
    }
}

impl Settings {
    /// Wraps the object that the native constructor returned. A null pointer
    /// is refused: no wrapper is ever made around one.
    pub fn new(raw: usize) -> (r: Result<Settings, CpdbError>)
        ensures
            match r {
                Ok(settings) => raw != 0 && settings@ == raw,
                Err(e) => raw == 0 && e@ == ErrorModel::NullPointer,
            },
    {
        if raw == 0 {
            Err(CpdbError::NullPointer)
        } else {
            Ok(Settings { raw })
        }
    }

    /// Decides whether an operation may call the native side with this
    /// object.
    pub fn check_live(&self) -> (r: Result<(), CpdbError>)
        ensures
            failure(r) == settings_refusal(self@, None),
    {
        if self.raw == 0 {
            Err(CpdbError::NullPointer)
        } else {
            Ok(())
        }
    }

    /// Wraps `copy_raw`, the fresh native object that is to receive a copy of
    /// these settings. The copy owns that object and no other.
    pub fn copy(&self, copy_raw: usize) -> (r: Result<Settings, CpdbError>)
        ensures
            match r {
                Ok(settings) => self@ != 0 && copy_raw != 0 && settings@ == copy_raw,
                Err(e) => (self@ == 0 || copy_raw == 0) && e@ == ErrorModel::NullPointer,
            },
    {
        match self.check_live() {
            Ok(()) => Settings::new(copy_raw),
            Err(e) => Err(e),
        }
    }

    /// The terminated buffers to hand to the native side for adding `key`
    /// with `value`, where that may be done.
    pub fn add_request(&self, key: &str, value: &str) -> (r: Result<(Vec<u8>, Vec<u8>), CpdbError>)
        ensures
            failure(r) == settings_refusal(self@, first_of(unterminated(key@), unterminated(value@))),
            r matches Ok(buffers) ==> terminated(key@) == Ok::<Seq<u8>, ErrorModel>(buffers.0@)
                && terminated(value@) == Ok::<Seq<u8>, ErrorModel>(buffers.1@),
    {
        match self.check_live() {
            Ok(()) => {},
            Err(e) => {
                return Err(e);
            },
        }
        let c_key = match to_c_string(key) {
            Ok(buffer) => buffer,
            Err(e) => {
                return Err(e);
            },
        };
        match to_c_string(value) {
            Ok(c_value) => Ok((c_key, c_value)),
            Err(e) => Err(e),
        }
    }

    /// The terminated buffer to hand to the native side for clearing `key`,
    /// where that may be done.
    pub fn clear_request(&self, key: &str) -> (r: Result<Vec<u8>, CpdbError>)
        ensures
            failure(r) == settings_refusal(self@, unterminated(key@)),
            r matches Ok(buffer) ==> terminated(key@) == Ok::<Seq<u8>, ErrorModel>(buffer@),
    {
        match self.check_live() {
            Ok(()) => to_c_string(key),
            Err(e) => Err(e),
        }
    }

    /// Decides whether `key` and `value` may be added to the native object.
    pub fn add_setting(&mut self, key: &str, value: &str) -> (r: Result<(), CpdbError>)
        ensures
            *final(self) == *old(self),
            failure(r) == settings_refusal(
                old(self)@,
                first_of(unterminated(key@), unterminated(value@)),
            ),
    {
        match self.add_request(key, value) {
            Ok(_) => Ok(()),
            Err(e) => Err(e),
        }
    }

    /// Decides whether `key` may be cleared in the native object.
    pub fn clear_setting(&mut self, key: &str) -> (r: Result<(), CpdbError>)
        ensures
            *final(self) == *old(self),
            failure(r) == settings_refusal(old(self)@, unterminated(key@)),
    {
        match self.clear_request(key) {
            Ok(_) => Ok(()),
            Err(e) => Err(e),
        }
    }

    /// Passes on the serialized form that the native library produced. Its
    /// layout is the native library's own: the address is carried, never
    /// read.
    pub fn serialize_to_gvariant(&self, variant: usize) -> (r: Result<usize, CpdbError>)
        ensures
            match r {
                Ok(out) => self@ != 0 && variant != 0 && out == variant,
                Err(e) => if self@ == 0 {
                    e@ == ErrorModel::NullPointer
                } else {
                    variant == 0 && e@ == ErrorModel::BackendError("Failed to serialize settings"@)
                },
            },
    {
        if self.raw == 0 {
            return Err(CpdbError::NullPointer);
        }
        if variant == 0 {
            Err(CpdbError::BackendError("Failed to serialize settings".to_owned()))
        } else {
            Ok(variant)
        }
    }

    /// Decides whether the native object may be saved to disk.
    pub fn save_to_disk(&self) -> (r: Result<(), CpdbError>)
        ensures
            failure(r) == settings_refusal(self@, None),
    {
        self.check_live()
    }

    /// Wraps the object that the native library read from disk: either a
    /// whole settings object or an error.
    pub fn read_from_disk(raw: usize) -> (r: Result<Settings, CpdbError>)
        ensures
            match r {
                Ok(settings) => raw != 0 && settings@ == raw,
                Err(e) => raw == 0 && e@ == ErrorModel::NullPointer,
            },
    {
        Settings::new(raw)
    }

    /// The address of the native object, zero once released.
    pub fn as_raw(&self) -> (raw: usize)
        ensures
            raw == self@,
    {
        self.raw
    }

    /// Gives up the native object: hands out its address for deletion and
    /// forgets it, so that a second release hands out nothing.
    pub fn release(&mut self) -> (r: Option<usize>)
        ensures
            r == released(old(self)@),
            final(self)@ == 0,
    {
        let raw = self.raw;
        self.raw = 0;
        if raw == 0 {
            None
        } else {
            Some(raw)
        }
    }
}

/// A set of printer options held by the native library.
#[derive(Debug, PartialEq, Eq)]
pub struct Options {
    raw: usize,
}

impl View for Options {
    type V = usize;

    closed spec fn view(&self) -> usize {
        self.raw
    }
}

impl Options {
    /// Wraps the object that the native constructor returned. A null pointer
    /// is refused: no wrapper is ever made around one.
    pub fn new(raw: usize) -> (r: Result<Options, CpdbError>)
        ensures
            match r {
                Ok(options) => raw != 0 && options@ == raw,
                Err(e) => raw == 0 && e@ == ErrorModel::NullPointer,
            },
    {
        if raw == 0 {
            Err(CpdbError::NullPointer)
        } else {
            Ok(Options { raw })
        }
    }

    /// The address of the native object, zero once released.
    pub fn as_raw(&self) -> (raw: usize)
        ensures
            raw == self@,
    {
        self.raw
    }

    /// Gives up the native object: hands out its address for deletion and
    /// forgets it, so that a second release hands out nothing.
    pub fn release(&mut self) -> (r: Option<usize>)
        ensures
            r == released(old(self)@),
            final(self)@ == 0,
    {
        let raw = self.raw;
        self.raw = 0;
        if raw == 0 {
            None
        } else {
            Some(raw)
        }
    }
}

/// One media descriptor held by the native library.
#[derive(Debug, PartialEq, Eq)]
pub struct Media {
    raw: usize,
}

impl View for Media {
    type V = usize;

    closed spec fn view(&self) -> usize {
        self.raw
    }
}

impl Media {
    /// Wraps a media descriptor that a printer query returned.
    pub fn from_raw(raw: usize) -> (r: Result<Media, CpdbError>)
        ensures
            match r {
                Ok(media) => raw != 0 && media@ == raw,
                Err(e) => raw == 0 && e@ == ErrorModel::NullPointer,
            },
    {
        if raw == 0 {
            Err(CpdbError::NullPointer)
        } else {
            Ok(Media { raw })
        }
    }

    /// The address of the native object, zero once released.
    pub fn as_raw(&self) -> (raw: usize)
        ensures
            raw == self@,
    {
        self.raw
    }

    /// Gives up the native object: hands out its address for deletion and
    /// forgets it, so that a second release hands out nothing.
    pub fn release(&mut self) -> (r: Option<usize>)
        ensures
            r == released(old(self)@),
            final(self)@ == 0,
    {
        let raw = self.raw;
        self.raw = 0;
        if raw == 0 {
            None
        } else {
            Some(raw)
        }
    }
}

} // verus!
