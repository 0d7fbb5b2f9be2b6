use vstd::prelude::*;
use crate::exifimpl::Exif;

verus! {

/// An error returned when parsing of Exif data fails.
#[derive(Debug)]
pub enum Error {
    /// Input data was malformed or truncated.
    InvalidFormat(&'static str),
    /// Input data could not be read.
    Io(String),
    /// The requested data was not found (for example, a file had no Exif).
    NotFound(&'static str),
    /// The value of the field is blank.
    BlankValue(&'static str),
    /// Field value or data is too big.
    TooBig(&'static str),
    /// The data is not supported by this library.
    NotSupported(&'static str),
    /// The field has an unexpected value.
    UnexpectedValue(&'static str),
    /// The Exif data carries no MakerNote.
    MakerNoteNotFound,
    /// Parsing went on past non-fatal errors: what was read, and the errors.
    PartialResult(Box<PartialResult>),
}

/// What a parse that went on past non-fatal errors read, with the errors
/// it went past.
#[derive(Debug)]
pub struct PartialResult {
    exif: Exif,
    errors: Vec<Error>,
}

impl PartialResult {
    /// What was read.
    pub closed spec fn spec_exif(&self) -> Exif { self.exif }
    /// The errors gone past, in order.
    pub closed spec fn spec_errors(&self) -> Seq<Error> { self.errors@ }

    /// Holds what was read with the errors gone past.
    pub fn new(exif: Exif, errors: Vec<Error>) -> (r: PartialResult)
        ensures
            r.spec_exif() == exif,
            r.spec_errors() == errors@,
    {
        PartialResult { exif, errors }
    }

    /// Returns what was read and the errors gone past.
    pub fn into_inner(self) -> (r: (Exif, Vec<Error>))
        ensures
            r.0 == self.spec_exif(),
            r.1@ == self.spec_errors(),
    {
        (self.exif, self.errors)
    }
}

impl Error {
    /// Whether this is an `InvalidFormat` error carrying the given message.
    pub open spec fn is_invalid(self, msg: &'static str) -> bool {
        self matches Error::InvalidFormat(m) && m@ == msg@
    }

    /// Whether this is a `NotSupported` error carrying the given message.
    pub open spec fn is_not_supported(self, msg: &'static str) -> bool {
        self matches Error::NotSupported(m) && m@ == msg@
    }

    /// Whether this is a `NotFound` error carrying the given message.
    pub open spec fn is_not_found(self, msg: &'static str) -> bool {
        self matches Error::NotFound(m) && m@ == msg@
    }
}

} // verus!
