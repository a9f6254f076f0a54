//! The error types of the crate.

use vstd::prelude::*;

use crate::text::push_str;

verus! {

/// Error of `Field::try_from`: the title that matched no field.
#[derive(Clone, Debug, PartialEq, Eq)]
pub struct ParseFieldError(pub String);

impl ParseFieldError {
    pub fn new(failed_title: &str) -> (r: Self)
        ensures
            r.0@ == failed_title@,
    {
        ParseFieldError(failed_title.to_owned())
    }
}

impl ParseFieldError {
    /// Describes the error.
    pub fn message(&self) -> (r: String)
        ensures
            r@ == field_message(self.0@),
    {
        let mut s = String::new();
        push_str(&mut s, "invalid field title '");
        push_str(&mut s, self.0.as_str());
        push_str(&mut s, "'");
        assert(s@ =~= field_message(self.0@));
        s
    }
}

/// Message of an unknown title.
pub open spec fn field_message(t: Seq<char>) -> Seq<char> {
    "invalid field title '"@ + t + "'"@
}

/// Message of a refused delimiter, whose escaped form is `escaped`.
pub open spec fn delimiter_message(escaped: Seq<char>) -> Seq<char> {
    "invalid delimiter character '"@ + escaped + "'"@
}

/// Message of an unrecognised missing-value text.
pub open spec fn missing_message(t: Seq<char>) -> Seq<char> {
    "unknown missing value pattern \""@ + t + "\""@
}

/// What `char::escape_debug` writes for `c`.
pub uninterp spec fn debug_escaped(c: char) -> Seq<char>;

/// Relies on `char::escape_debug`: the escaped form of `c`, which depends on `c` alone.
#[verifier::external_body]
fn escape_debug(c: char) -> (r: String)
    ensures
        r@ == debug_escaped(c),
{
    c.escape_debug().to_string()
}

/// The message of a refused delimiter from its escaped form.
pub fn delimiter_message_of(escaped: &str) -> (r: String)
    ensures
        r@ == delimiter_message(escaped@),
{
    let mut s = String::new();
    push_str(&mut s, "invalid delimiter character '");
    push_str(&mut s, escaped);
    push_str(&mut s, "'");
    assert(s@ =~= delimiter_message(escaped@));
    s
}

/// Error of `FieldFilter::from_strs`.
#[derive(Clone, Debug, PartialEq, Eq)]
pub struct ParseFieldFilterError(pub ParseFieldError);

/// Error of `Delimiter::try_from`: the refused character.
#[derive(Clone, Copy, Debug, PartialEq, Eq, Structural)]
pub struct InvalidDelimiterError(pub char);

impl InvalidDelimiterError {
    pub fn new(failed_char: char) -> (r: Self)
        ensures
            r.0 == failed_char,
    {
        InvalidDelimiterError(failed_char)
    }
}

impl InvalidDelimiterError {
    /// Describes the error.
    pub fn message(&self) -> (r: String)
        ensures
            r@ == delimiter_message(debug_escaped(self.0)),
    {
        let e = escape_debug(self.0);
        delimiter_message_of(e.as_str())
    }
}

/// Error of `MissingValue::try_from`: the unrecognised text.
#[derive(Clone, Debug, PartialEq, Eq)]
pub struct ParseMissingError(pub String);

impl ParseMissingError {
    pub fn new(failed_value: &str) -> (r: Self)
        ensures
            r.0@ == failed_value@,
    {
        ParseMissingError(failed_value.to_owned())
    }
}

impl ParseMissingError {
    /// Describes the error.
    pub fn message(&self) -> (r: String)
        ensures
            r@ == missing_message(self.0@),
    {
        let mut s = String::new();
        push_str(&mut s, "unknown missing value pattern \"");
        push_str(&mut s, self.0.as_str());
        push_str(&mut s, "\"");
        assert(s@ =~= missing_message(self.0@));
        s
    }
}

/// What was wrong with the separator between `Time` and `StationNumber`.
#[derive(Clone, Debug, PartialEq, Eq)]
pub enum InvalidDelimiterSource {
    /// A single character that is no valid delimiter.
    Error(InvalidDelimiterError),
    /// More than one character.
    String(String),
}

/// Error of `FieldConfig::from_header` and `CsvFormat::from_str`.
#[derive(Clone, Debug, PartialEq, Eq)]
pub enum ParseHeaderError {
    FoundNoDelimiters,
    FoundDuplicates(String),
    UnknownField(ParseFieldError),
    MissingTime,
    MissingStationNumber,
    InvalidEorPosition,
    InvalidTimeAlignment,
    InvalidDelimiter(InvalidDelimiterSource),
}

/// The content of a `ParseHeaderError`, with its texts as character sequences.
pub enum HeaderFault {
    FoundNoDelimiters,
    FoundDuplicates(Seq<char>),
    UnknownField(Seq<char>),
    MissingTime,
    MissingStationNumber,
    InvalidEorPosition,
    InvalidTimeAlignment,
    InvalidDelimiterChar(char),
    InvalidDelimiterText(Seq<char>),
}

impl View for ParseHeaderError {
    type V = HeaderFault;

    open spec fn view(&self) -> HeaderFault {
        match self {
            ParseHeaderError::FoundNoDelimiters => HeaderFault::FoundNoDelimiters,
            ParseHeaderError::FoundDuplicates(s) => HeaderFault::FoundDuplicates(s@),
            ParseHeaderError::UnknownField(e) => HeaderFault::UnknownField(e.0@),
            ParseHeaderError::MissingTime => HeaderFault::MissingTime,
            ParseHeaderError::MissingStationNumber => HeaderFault::MissingStationNumber,
            ParseHeaderError::InvalidEorPosition => HeaderFault::InvalidEorPosition,
            ParseHeaderError::InvalidTimeAlignment => HeaderFault::InvalidTimeAlignment,
            ParseHeaderError::InvalidDelimiter(InvalidDelimiterSource::Error(e)) => {
                HeaderFault::InvalidDelimiterChar(e.0)
            },
            ParseHeaderError::InvalidDelimiter(InvalidDelimiterSource::String(s)) => {
                HeaderFault::InvalidDelimiterText(s@)
            },
        }
    }
}

/// Message of a header error.
pub open spec fn header_message(e: HeaderFault) -> Seq<char> {
    "failed to parse header, "@ + match e {
        HeaderFault::FoundNoDelimiters => "no delimiters found"@,
        HeaderFault::FoundDuplicates(s) => "duplicate field found \""@ + s + "\""@,
        HeaderFault::UnknownField(t) => field_message(t),
        HeaderFault::MissingTime => "missing `Time` at position #1"@,
        HeaderFault::MissingStationNumber => "missing `StationNumber` at position #2"@,
        HeaderFault::InvalidEorPosition => "`EOR` must be last if present"@,
        HeaderFault::InvalidTimeAlignment => "invalid characters detected before `Time`"@,
        HeaderFault::InvalidDelimiterChar(c) => delimiter_message(debug_escaped(c)),
        HeaderFault::InvalidDelimiterText(s) => "invalid delimiter found \""@ + s + "\""@,
    }
}

impl ParseHeaderError {
    /// Describes the error.
    pub fn message(&self) -> (r: String)
        ensures
            r@ == header_message(self@),
    {
        let mut s = String::new();
        push_str(&mut s, "failed to parse header, ");
        let ghost start = s@;
        match self {
            ParseHeaderError::FoundNoDelimiters => push_str(&mut s, "no delimiters found"),
            ParseHeaderError::FoundDuplicates(t) => {
                push_str(&mut s, "duplicate field found \"");
                push_str(&mut s, t.as_str());
                push_str(&mut s, "\"");
            },
            ParseHeaderError::UnknownField(e) => {
                let m = e.message();
                push_str(&mut s, m.as_str());
            },
            ParseHeaderError::MissingTime => push_str(&mut s, "missing `Time` at position #1"),
            ParseHeaderError::MissingStationNumber => push_str(
                &mut s,
                "missing `StationNumber` at position #2",
            ),
            ParseHeaderError::InvalidEorPosition => push_str(&mut s, "`EOR` must be last if present"),
            ParseHeaderError::InvalidTimeAlignment => push_str(
                &mut s,
                "invalid characters detected before `Time`",
            ),
            ParseHeaderError::InvalidDelimiter(InvalidDelimiterSource::Error(e)) => {
                let m = e.message();
                push_str(&mut s, m.as_str());
            },
            ParseHeaderError::InvalidDelimiter(InvalidDelimiterSource::String(t)) => {
                push_str(&mut s, "invalid delimiter found \"");
                push_str(&mut s, t.as_str());
                push_str(&mut s, "\"");
            },
        }
        assert(s@ =~= header_message(self@));
        s
    }
}

/// Error of `RawRecord::from_csv`: a malformed data line.
#[derive(Clone, Copy, Debug, PartialEq, Eq, Structural)]
pub struct ParseRecordError;

/// Error of `RecordFilter::from_str`: a malformed filter specification.
#[derive(Clone, Copy, Debug, PartialEq, Eq, Structural)]
pub struct ParseRecordFilterError;

/// Error of the conversion of a `RawRecord` into numeric values.
#[derive(Clone, Copy, Debug, PartialEq, Eq, Structural)]
pub struct TryFromRawRecordError;

/// Error while reading a file of records.
#[derive(Clone, Copy, Debug, PartialEq, Eq, Structural)]
pub struct ReadCsvError;

/// Error while writing a file of records.
#[derive(Clone, Copy, Debug, PartialEq, Eq, Structural)]
pub struct WriteCsvError;

/// Error of a whole conversion from one file to another.
#[derive(Clone, Copy, Debug, PartialEq, Eq, Structural)]
pub enum CsvError {
    ReadErr,
    WriteErr,
}

} // verus!
