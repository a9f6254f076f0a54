//! Header dialects: delimiter, alignment, missing-value convention and selected fields.

use vstd::prelude::*;

use crate::error::{
    HeaderFault, InvalidDelimiterError, InvalidDelimiterSource, ParseHeaderError, ParseMissingError,
};
use crate::field::config::{parse_header, selection};
use crate::field::{Field, FieldConfig, FIELD_COUNT};
use crate::text::{
    chars_of, is_ascii_punctuation, is_ascii_whitespace, push_char, push_spaces, push_str, range_equals,
    spaces, spec_is_ascii_punctuation, spec_is_ascii_whitespace, string_from_chars,
};

verus! {

/// How a missing value is written.
#[derive(Clone, Copy, Debug, PartialEq, Eq, Hash, PartialOrd, Ord, Structural)]
pub enum MissingValue {
    /// "-999", this is the default.
    Minus999,
    /// "null"
    Null,
    /// ""
    Empty,
}

/// Whether `s` is `null` in any mix of ASCII upper and lower case.
pub open spec fn is_null_text(s: Seq<char>) -> bool {
    &&& s.len() == 4
    &&& (s[0] == 'n' || s[0] == 'N')
    &&& (s[1] == 'u' || s[1] == 'U')
    &&& (s[2] == 'l' || s[2] == 'L')
    &&& (s[3] == 'l' || s[3] == 'L')
}

/// The convention that a text names: `"-999"`, `"null"` in any ASCII case, or nothing at all.
pub open spec fn missing_lookup(s: Seq<char>) -> Option<MissingValue> {
    if s == "-999"@ {
        Some(MissingValue::Minus999)
    } else if is_null_text(s) {
        Some(MissingValue::Null)
    } else if s.len() == 0 {
        Some(MissingValue::Empty)
    } else {
        None
    }
}

impl MissingValue {
    /// The text written for a missing value.
    pub open spec fn spec_text(self) -> Seq<char> {
        match self {
            MissingValue::Minus999 => "-999"@,
            MissingValue::Null => "null"@,
            MissingValue::Empty => ""@,
        }
    }

    /// The text written for a missing value.
    pub fn as_str(&self) -> (r: &'static str)
        ensures
            r@ == self.spec_text(),
    {
        match self {
            MissingValue::Minus999 => "-999",
            MissingValue::Null => "null",
            MissingValue::Empty => "",
        }
    }

    /// Recognises the text of a missing value.
    pub fn try_from(s: &str) -> (r: Result<MissingValue, ParseMissingError>)
        ensures
            match r {
                Ok(m) => missing_lookup(s@) == Some(m),
                Err(e) => missing_lookup(s@) is None && e.0@ == s@,
            },
    {
        let v = chars_of(s);
        let n = v.len();
        proof {
            assert(v@.subrange(0, n as int) =~= s@);
        }
        if range_equals(&v, 0, n, "-999") {
            Ok(MissingValue::Minus999)
        } else if n == 4 && (v[0] == 'n' || v[0] == 'N') && (v[1] == 'u' || v[1] == 'U') && (v[2]
            == 'l' || v[2] == 'L') && (v[3] == 'l' || v[3] == 'L') {
            Ok(MissingValue::Null)
        } else if n == 0 {
            Ok(MissingValue::Empty)
        } else {
            Err(ParseMissingError::new(s))
        }
    }
}

impl Default for MissingValue {
    /// Returns the variant `Minus999`.
    fn default() -> (r: MissingValue)
        ensures
            r == MissingValue::Minus999,
    {
        MissingValue::Minus999
    }
}

/// Characters that may separate the columns: ASCII punctuation or ASCII whitespace.
pub open spec fn is_delimiter_char(c: char) -> bool {
    spec_is_ascii_punctuation(c) || spec_is_ascii_whitespace(c)
}

/// Field separator character.
#[derive(Clone, Copy, Debug, PartialEq, Eq, Hash, PartialOrd, Ord)]
pub struct Delimiter(char);

impl View for Delimiter {
    type V = char;

    closed spec fn view(&self) -> char {
        self.0
    }
}

impl Delimiter {
    #[verifier::type_invariant]
    spec fn valid(self) -> bool {
        is_delimiter_char(self.0)
    }

    /// The separator character.
    pub fn as_char(&self) -> (r: char)
        ensures
            r == self@,
            is_delimiter_char(r),
    {
        proof {
            use_type_invariant(self);
        }
        self.0
    }

    /// Conversion ensuring that the character is valid.
    pub fn try_from(ch: char) -> (r: Result<Delimiter, InvalidDelimiterError>)
        ensures
            match r {
                Ok(d) => is_delimiter_char(ch) && d@ == ch,
                Err(e) => !is_delimiter_char(ch) && e.0 == ch,
            },
    {
        if is_ascii_punctuation(ch) || is_ascii_whitespace(ch) {
            Ok(Delimiter(ch))
        } else {
            Err(InvalidDelimiterError::new(ch))
        }
    }
}

impl Default for Delimiter {
    /// Semicolon (';').
    fn default() -> (r: Delimiter)
        ensures
            r@ == ';',
    {
        Delimiter(';')
    }
}

/// Whether `p` occurs in `h` at position `i`.
pub open spec fn occurs_at(h: Seq<char>, p: Seq<char>, i: int) -> bool {
    0 <= i && i + p.len() <= h.len() && h.subrange(i, i + p.len()) == p
}

/// The first position from `i` on where `p` occurs in `h`.
pub open spec fn find_from(h: Seq<char>, p: Seq<char>, i: int) -> Option<int>
    decreases h.len() + 1 - i,
{
    if i < 0 || i + p.len() > h.len() {
        None
    } else if occurs_at(h, p, i) {
        Some(i)
    } else {
        find_from(h, p, i + 1)
    }
}

/// What `find_from` finds is an occurrence, the first one from `i` on.
pub proof fn lemma_find_from(h: Seq<char>, p: Seq<char>, i: int)
    requires
        0 <= i,
    ensures
        find_from(h, p, i) matches Some(k) ==> i <= k && occurs_at(h, p, k) && forall|j: int|
            i <= j < k ==> !occurs_at(h, p, j),
        find_from(h, p, i) is None ==> forall|j: int| i <= j ==> !occurs_at(h, p, j),
    decreases h.len() + 1 - i,
{
    if i + p.len() > h.len() {
    } else if !occurs_at(h, p, i) {
        lemma_find_from(h, p, i + 1);
    }
}

/// Padding of `f` in an aligned header.
pub open spec fn padding(f: Field) -> nat {
    if f.spec_width() >= f.spec_title().len() {
        (f.spec_width() - f.spec_title().len()) as nat
    } else {
        0
    }
}

/// How `f` is written in a header: padded in front when aligned, but `StationName` padded
/// behind, which keeps free text left-aligned.
pub open spec fn header_cell(f: Field, alignment: bool) -> Seq<char> {
    if !alignment {
        f.spec_title()
    } else if f == Field::StationName {
        f.spec_title() + spaces(padding(f))
    } else {
        spaces(padding(f)) + f.spec_title()
    }
}

/// The header line that lists `fs`, separated by `d`.
pub open spec fn render_header(fs: Seq<Field>, d: char, alignment: bool) -> Seq<char>
    decreases fs.len(),
{
    if fs.len() == 0 {
        seq![]
    } else if fs.len() == 1 {
        header_cell(fs[0], alignment)
    } else {
        render_header(fs.drop_last(), d, alignment).push(d) + header_cell(fs.last(), alignment)
    }
}

/// The complete content of a `CsvFormat`.
pub struct Dialect {
    pub alignment: bool,
    pub missing: MissingValue,
    pub delimiter: char,
    pub fields: Seq<Field>,
}

/// The missing-value convention guessed for a header: `-999` when aligned, else `null` with a
/// whitespace delimiter, else the empty text.
pub open spec fn guessed_missing(alignment: bool, d: char) -> MissingValue {
    if alignment {
        MissingValue::Minus999
    } else if spec_is_ascii_whitespace(d) {
        MissingValue::Null
    } else {
        MissingValue::Empty
    }
}

/// The dialect of header line `h`, or why it has none.
///
/// `Time` must occur, at the start or after at most its padding of whitespace, which then
/// marks an aligned header; the one character after it, followed by `StationNumber`, is the
/// delimiter.
pub open spec fn parse_format(h: Seq<char>) -> Result<Dialect, HeaderFault> {
    let tt = Field::Time.spec_title();
    match find_from(h, tt, 0) {
        None => Err(HeaderFault::MissingTime),
        Some(ti) => if ti > 0 && (ti > padding(Field::Time) || exists|j: int|
            0 <= j < ti && !spec_is_ascii_whitespace(#[trigger] h[j])) {
            Err(HeaderFault::InvalidTimeAlignment)
        } else {
            match find_from(h, Field::StationNumber.spec_title(), 0) {
                None => Err(HeaderFault::MissingStationNumber),
                Some(ni) => {
                    let di = ti + tt.len();
                    if ni > di + 1 {
                        Err(HeaderFault::InvalidDelimiterText(h.subrange(di, ni)))
                    } else if !is_delimiter_char(h[di]) {
                        Err(HeaderFault::InvalidDelimiterChar(h[di]))
                    } else {
                        match parse_header(h, h[di]) {
                            Err(e) => Err(e),
                            Ok(fs) => Ok(
                                Dialect {
                                    alignment: ti > 0,
                                    missing: guessed_missing(ti > 0, h[di]),
                                    delimiter: h[di],
                                    fields: fs,
                                },
                            ),
                        }
                    }
                },
            }
        },
    }
}

/// The first position where `t` occurs in `h`.
fn find_title(h: &Vec<char>, t: &str) -> (r: Option<usize>)
    ensures
        match r {
            Some(i) => find_from(h@, t@, 0) == Some(i as int),
            None => find_from(h@, t@, 0) is None,
        },
{
    let n = h.len();
    let m = t.unicode_len();
    if m > n {
        return None;
    }
    if m == 0 {
        assert(h@.subrange(0, 0) =~= t@);
        return Some(0);
    }
    let mut i: usize = 0;
    while i < n
        invariant
            n == h@.len(),
            m == t@.len(),
            0 < m <= n,
            i <= n,
            find_from(h@, t@, 0) == find_from(h@, t@, i as int),
        decreases n - i,
    {
        if m > n - i {
            return None;
        }
        if range_equals(h, i, i + m, t) {
            return Some(i);
        }
        i = i + 1;
    }
    None
}

/// Formatting of a file: alignment, missing-value text, delimiter and selected fields.
///
/// Mainly describes the output, but also checks that every input line has the same format.
#[derive(Clone, Debug, PartialEq, Eq)]
pub struct CsvFormat {
    /// - `true`: every field is padded with spaces to its width, the value aligned to the
    ///   right (`StationName` to the left).
    /// - `false`: every field takes just the width of its value.
    pub alignment: bool,
    /// How missing values are written on output. It is not checked on input, and a header
    /// does not tell it (see `from_str`).
    pub missing: MissingValue,
    pub delimiter: Delimiter,
    pub field_config: FieldConfig,
}

impl View for CsvFormat {
    type V = Dialect;

    open spec fn view(&self) -> Dialect {
        Dialect {
            alignment: self.alignment,
            missing: self.missing,
            delimiter: self.delimiter@,
            fields: self.field_config@,
        }
    }
}

impl CsvFormat {
    /// The header line of this format.
    pub open spec fn spec_header(self) -> Seq<char> {
        render_header(self.field_config@, self.delimiter@, self.alignment)
    }

    /// The selected field titles separated by the delimiter: the header line.
    pub fn to_string(&self) -> (r: String)
        ensures
            r@ == self.spec_header(),
    {
        let fields = self.field_config.fields();
        let d = self.delimiter.as_char();
        let mut s = String::new();
        let mut i: usize = 0;
        while i < fields.len()
            invariant
                fields@ == self.field_config@,
                d == self.delimiter@,
                i <= fields@.len(),
                s@ == render_header(fields@.subrange(0, i as int), d, self.alignment),
            decreases fields.len() - i,
        {
            let f = fields[i];
            if i != 0 {
                push_char(&mut s, d);
            }
            let ghost before = s@;
            let title = f.title();
            let tl = title.unicode_len();
            let w = f.width() as usize;
            let pad: usize = if w >= tl {
                w - tl
            } else {
                0
            };
            if self.alignment && f != Field::StationName {
                push_spaces(&mut s, pad);
            }
            push_str(&mut s, title);
            if self.alignment && f == Field::StationName {
                push_spaces(&mut s, pad);
            }
            proof {
                assert(s@ =~= before + header_cell(f, self.alignment));
                assert(fields@.subrange(0, i + 1).drop_last() =~= fields@.subrange(0, i as int));
            }
            i = i + 1;
        }
        proof {
            assert(fields@.subrange(0, i as int) =~= fields@);
        }
        s
    }

    /// Parses a header line into the format that wrote it.
    ///
    /// `Time` tells the alignment, the character between `Time` and `StationNumber` the
    /// delimiter. A header does not tell how missing values are written, so `missing` is a
    /// guess: `Minus999` when aligned, else `Null` with a whitespace delimiter, else `Empty`.
    pub fn from_str(header: &str) -> (r: Result<CsvFormat, ParseHeaderError>)
        ensures
            match r {
                Ok(f) => parse_format(header@) == Ok::<Dialect, HeaderFault>(f@),
                Err(e) => parse_format(header@) == Err::<Dialect, HeaderFault>(e@),
            },
    {
        let h = chars_of(header);
        let n = h.len();
        let time_title = Field::Time.title();
        let ti = match find_title(&h, time_title) {
            None => return Err(ParseHeaderError::MissingTime),
            Some(i) => i,
        };
        let tl = time_title.unicode_len();
        let ghost tt = Field::Time.spec_title();
        proof {
            lemma_find_from(h@, tt, 0);
            assert(h@.subrange(ti as int, ti + tl) == tt);
            assert(h@[ti as int] == h@.subrange(ti as int, ti + tl)[0]);
            assert(h@[ti + 1] == h@.subrange(ti as int, ti + tl)[1]);
            assert(h@[ti + 2] == h@.subrange(ti as int, ti + tl)[2]);
            assert(h@[ti + 3] == h@.subrange(ti as int, ti + tl)[3]);
        }
        assert(tl == 4 && padding(Field::Time) == 8);
        let alignment = if ti == 0 {
            false
        } else {
            if ti > (Field::Time.width() as usize) - tl {
                return Err(ParseHeaderError::InvalidTimeAlignment);
            }
            let mut j: usize = 0;
            while j < ti
                invariant
                    ti <= n == h@.len(),
                    h@ == header@,
                    tt == Field::Time.spec_title(),
                    0 < ti <= padding(Field::Time),
                    find_from(h@, tt, 0) == Some(ti as int),
                    forall|k: int| 0 <= k < j ==> spec_is_ascii_whitespace(#[trigger] h@[k]),
                decreases ti - j,
            {
                if !is_ascii_whitespace(h[j]) {
                    return Err(ParseHeaderError::InvalidTimeAlignment);
                }
                j = j + 1;
            }
            true
        };
        let ni = match find_title(&h, Field::StationNumber.title()) {
            None => return Err(ParseHeaderError::MissingStationNumber),
            Some(i) => i,
        };
        let di = ti + tl;
        proof {
            let sn = Field::StationNumber.spec_title();
            lemma_find_from(h@, sn, 0);
            assert(h@.subrange(ni as int, ni + 13) == sn);
            assert(h@[ni as int] == h@.subrange(ni as int, ni + 13)[0]);
            assert(h@[ni as int] == 'S');
        }
        if ni > di + 1 {
            let t = string_from_chars(&h, di, ni);
            return Err(ParseHeaderError::InvalidDelimiter(InvalidDelimiterSource::String(t)));
        }
        let delimiter = match Delimiter::try_from(h[di]) {
            Ok(d) => d,
            Err(e) => return Err(ParseHeaderError::InvalidDelimiter(InvalidDelimiterSource::Error(e))),
        };
        let missing = if alignment {
            MissingValue::Minus999
        } else if is_ascii_whitespace(delimiter.as_char()) {
            MissingValue::Null
        } else {
            MissingValue::Empty
        };
        let field_config = match FieldConfig::from_header(header, delimiter) {
            Ok(c) => c,
            Err(e) => return Err(e),
        };
        Ok(CsvFormat { alignment, missing, delimiter, field_config })
    }
}

impl Default for CsvFormat {
    /// The format of the published data files: aligned, `-999`, semicolons, all fields.
    fn default() -> (r: CsvFormat)
        ensures
            r@ == (Dialect {
                alignment: true,
                missing: MissingValue::Minus999,
                delimiter: ';',
                fields: selection(FIELD_COUNT as int, true, true, true, true, None),
            }),
    {
        CsvFormat {
            alignment: true,
            missing: MissingValue::default(),
            delimiter: Delimiter::default(),
            field_config: FieldConfig::default(),
        }
    }
}

} // verus!
