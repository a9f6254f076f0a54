//! Records: one data line held as texts, and a filter on stations.

use vstd::prelude::*;

use crate::error::{ParseRecordError, ParseRecordFilterError};
use crate::field::config::{header_tokens, pieces, split, split_bounds};
use crate::field::{field_at, lemma_catalog_index, Field};
use crate::format::{missing_lookup, CsvFormat, Dialect, MissingValue};
use crate::text::{chars_of, push_char, push_spaces, push_str, spaces, string_from_chars, trim_range};

verus! {

/// Number of optional fields: all but `Time` and `StationNumber`.
pub const OPTIONAL_COUNT: usize = 53;

/// Whether `s` is a non-empty run of ASCII digits.
pub open spec fn is_digits(s: Seq<char>) -> bool {
    s.len() > 0 && forall|i: int| 0 <= i < s.len() ==> '0' <= #[trigger] s[i] && s[i] <= '9'
}

/// The value texts of a data line: its pieces between delimiters, trimmed when aligned.
pub open spec fn line_values(line: Seq<char>, d: char, alignment: bool) -> Seq<Seq<char>> {
    if alignment {
        header_tokens(line, d)
    } else {
        split(line, d)
    }
}

/// The column of `f` among `fs`.
pub open spec fn column_of(fs: Seq<Field>, f: Field) -> int {
    choose|k: int| 0 <= k < fs.len() && fs[k] == f
}

/// The text in the column of `f`, if that column is among the first `k`.
pub open spec fn column_text(vs: Seq<Seq<char>>, fs: Seq<Field>, f: Field, k: int) -> Option<
    Seq<char>,
> {
    if fs.contains(f) && column_of(fs, f) < k {
        Some(vs[column_of(fs, f)])
    } else {
        None
    }
}

/// A stored optional value: none for a missing-value text.
pub open spec fn optional_value(v: Option<Seq<char>>) -> Option<Seq<char>> {
    match v {
        Some(t) => if missing_lookup(t) is Some {
            None
        } else {
            Some(t)
        },
        None => None,
    }
}

/// The content of a `RawRecord`.
pub struct RecordView {
    pub time: Seq<char>,
    pub station_number: Seq<char>,
    /// One slot per optional field: slot `i` holds the field at position `i + 2` of the catalog.
    pub values: Seq<Option<Seq<char>>>,
}

/// The value of `f` in a record.
pub open spec fn field_value(r: RecordView, f: Field) -> Option<Seq<char>> {
    if f == Field::Time {
        Some(r.time)
    } else if f == Field::StationNumber {
        Some(r.station_number)
    } else {
        r.values[f.ord() - 2]
    }
}

/// The record that data line `line` holds in format `fmt`, if it is well formed: as many
/// values as the format has fields, and `Time` and `StationNumber` given as digits.
pub open spec fn parse_line(line: Seq<char>, fmt: Dialect) -> Option<RecordView> {
    let vs = line_values(line, fmt.delimiter, fmt.alignment);
    let fs = fmt.fields;
    if vs.len() != fs.len() || !fs.contains(Field::Time) || !fs.contains(Field::StationNumber) {
        None
    } else {
        let t = vs[column_of(fs, Field::Time)];
        let n = vs[column_of(fs, Field::StationNumber)];
        if !is_digits(t) || !is_digits(n) {
            None
        } else {
            Some(
                RecordView {
                    time: t,
                    station_number: n,
                    values: Seq::new(
                        OPTIONAL_COUNT as nat,
                        |i: int| optional_value(column_text(vs, fs, field_at(i + 2), fs.len() as int)),
                    ),
                },
            )
        }
    }
}

/// The text written for `f`: its value, or the missing-value text.
pub open spec fn text_for(r: RecordView, f: Field, missing: MissingValue) -> Seq<char> {
    match field_value(r, f) {
        Some(v) => v,
        None => missing.spec_text(),
    }
}

/// How value `t` of `f` is written: padded to the width of `f` when aligned, in front, but
/// behind for `StationName`.
pub open spec fn value_cell(t: Seq<char>, f: Field, alignment: bool) -> Seq<char> {
    let pad: nat = if f.spec_width() >= t.len() {
        (f.spec_width() - t.len()) as nat
    } else {
        0
    };
    if !alignment {
        t
    } else if f == Field::StationName {
        t + spaces(pad)
    } else {
        spaces(pad) + t
    }
}

/// The cells `cs` separated by `d`.
pub open spec fn join_cells(cs: Seq<Seq<char>>, d: char) -> Seq<char>
    decreases cs.len(),
{
    if cs.len() == 0 {
        seq![]
    } else if cs.len() == 1 {
        cs[0]
    } else {
        join_cells(cs.drop_last(), d).push(d) + cs.last()
    }
}

/// The cells of record `r` in format `fmt`.
pub open spec fn line_cells(r: RecordView, fmt: Dialect) -> Seq<Seq<char>> {
    fmt.fields.map_values(|f: Field| value_cell(text_for(r, f, fmt.missing), f, fmt.alignment))
}

/// The data line that writes record `r` in format `fmt`.
pub open spec fn render_line(r: RecordView, fmt: Dialect) -> Seq<char> {
    join_cells(line_cells(r, fmt), fmt.delimiter)
}

/// Whether `r` has one slot per optional field and no value that is a missing-value text.
pub open spec fn well_formed_record(r: RecordView) -> bool {
    &&& r.values.len() == OPTIONAL_COUNT
    &&& forall|i: int|
        0 <= i < OPTIONAL_COUNT ==> (#[trigger] r.values[i] matches Some(v) ==> missing_lookup(
            v,
        ) is None)
}

pub open spec fn opt_view(o: Option<String>) -> Option<Seq<char>> {
    match o {
        Some(s) => Some(s@),
        None => None,
    }
}

/// In a list without repeats, a field's column is where it stands.
pub proof fn lemma_column_of(fs: Seq<Field>, k: int)
    requires
        fs.no_duplicates(),
        0 <= k < fs.len(),
    ensures
        fs.contains(fs[k]),
        column_of(fs, fs[k]) == k,
{
    assert(fs.contains(fs[k]));
    let c = column_of(fs, fs[k]);
    assert(fs[c] == fs[k]);
}

proof fn lemma_optional_slot(f: Field)
    requires
        f != Field::Time,
        f != Field::StationNumber,
    ensures
        2 <= f.ord() < 2 + OPTIONAL_COUNT,
        field_at(f.ord()) == f,
{
    lemma_catalog_index();
    if f.ord() == 0 {
        assert(field_at(0) == Field::Time);
    }
    if f.ord() == 1 {
        assert(field_at(1) == Field::StationNumber);
    }
}

/// Whether `v[a..b]` is a non-empty run of ASCII digits.
fn digits_in(v: &Vec<char>, a: usize, b: usize) -> (r: bool)
    requires
        a <= b <= v@.len(),
    ensures
        r == is_digits(v@.subrange(a as int, b as int)),
{
    if a == b {
        return false;
    }
    let mut i: usize = a;
    while i < b
        invariant
            a <= i <= b <= v@.len(),
            forall|j: int| a <= j < i ==> '0' <= #[trigger] v@[j] && v@[j] <= '9',
        decreases b - i,
    {
        if !('0' <= v[i] && v[i] <= '9') {
            assert(v@.subrange(a as int, b as int)[i - a] == v@[i as int]);
            return false;
        }
        i = i + 1;
    }
    assert forall|j: int| 0 <= j < b - a implies '0' <= #[trigger] v@.subrange(
        a as int,
        b as int,
    )[j] && v@.subrange(a as int, b as int)[j] <= '9' by {
        assert(v@.subrange(a as int, b as int)[j] == v@[a + j]);
    }
    true
}

/// One data line as texts.
///
/// `Time` and `StationNumber` are always there; every other field may be absent, because the
/// source gave the missing-value text or because its column was not selected.
#[derive(Debug)]
pub struct RawRecord {
    time: String,
    station_number: String,
    values: Vec<Option<String>>,
}

impl View for RawRecord {
    type V = RecordView;

    closed spec fn view(&self) -> RecordView {
        RecordView {
            time: self.time@,
            station_number: self.station_number@,
            values: self.values@.map_values(|o: Option<String>| opt_view(o)),
        }
    }
}

impl RawRecord {
    #[verifier::type_invariant]
    spec fn slots(self) -> bool {
        &&& self.values@.len() == OPTIONAL_COUNT
        &&& forall|i: int|
            0 <= i < OPTIONAL_COUNT ==> (#[trigger] self.values@[i] matches Some(v)
                ==> missing_lookup(v@) is None)
    }

    /// Every record has one slot per optional field.
    pub fn slot_count(&self) -> (r: usize)
        ensures
            r == self@.values.len(),
            r == OPTIONAL_COUNT,
    {
        proof {
            use_type_invariant(self);
        }
        self.values.len()
    }

    /// The timestamp text.
    pub fn time(&self) -> (r: &str)
        ensures
            r@ == self@.time,
    {
        self.time.as_str()
    }

    /// The station number text.
    pub fn station_number(&self) -> (r: &str)
        ensures
            r@ == self@.station_number,
    {
        self.station_number.as_str()
    }

    /// The value of field `f`, if present.
    pub fn value(&self, f: Field) -> (r: Option<&str>)
        ensures
            match r {
                Some(s) => field_value(self@, f) == Some(s@),
                None => field_value(self@, f) is None,
            },
    {
        proof {
            use_type_invariant(self);
        }
        if f == Field::Time {
            Some(self.time.as_str())
        } else if f == Field::StationNumber {
            Some(self.station_number.as_str())
        } else {
            proof {
                lemma_optional_slot(f);
            }
            match &self.values[f.index() - 2] {
                Some(s) => Some(s.as_str()),
                None => None,
            }
        }
    }

    /// Parses a data line in the given format.
    ///
    /// The n-th value goes to the n-th field of the format; when aligned, the padding is
    /// trimmed. A missing-value text leaves its field absent.
    pub fn from_csv(line: &str, format: &CsvFormat) -> (r: Result<Self, ParseRecordError>)
        ensures
            match r {
                Ok(rec) => parse_line(line@, format@) == Some(rec@) && well_formed_record(rec@),
                Err(_) => parse_line(line@, format@) is None,
            },
    {
        let h = chars_of(line);
        let d = format.delimiter.as_char();
        let a = format.alignment;
        let fs = format.field_config.fields();
        let bounds = split_bounds(&h, d);
        if bounds.len() != fs.len() {
            proof {
                assert(pieces(h@, bounds@).len() == bounds@.len());
            }
            return Err(ParseRecordError);
        }
        let ghost vs = line_values(h@, d, a);
        let ghost fsv = fs@;
        assert(vs.len() == fs@.len());

        let mut values: Vec<Option<String>> = Vec::new();
        let mut i: usize = 0;
        while i < OPTIONAL_COUNT
            invariant
                i <= OPTIONAL_COUNT,
                values@.len() == i,
                forall|j: int| 0 <= j < i ==> #[trigger] values@[j] is None,
            decreases OPTIONAL_COUNT - i,
        {
            values.push(None);
            i = i + 1;
        }

        let mut time: Option<String> = None;
        let mut number: Option<String> = None;
        let mut k: usize = 0;
        while k < fs.len()
            invariant
                h@ == line@,
                d == format@.delimiter,
                a == format@.alignment,
                fsv == fs@,
                fs@ == format@.fields,
                fs@.no_duplicates(),
                bounds@.len() == fs@.len(),
                pieces(h@, bounds@) == split(h@, d),
                forall|j: int| 0 <= j < bounds@.len() ==> #[trigger] bounds@[j].0 <= bounds@[j].1
                    <= h@.len(),
                vs == line_values(h@, d, a),
                vs.len() == fs@.len(),
                k <= fs@.len(),
                values@.len() == OPTIONAL_COUNT,
                forall|j: int|
                    0 <= j < OPTIONAL_COUNT ==> opt_view(#[trigger] values@[j]) == optional_value(
                        column_text(vs, fsv, field_at(j + 2), k as int),
                    ),
                opt_view(time) == column_text(vs, fsv, Field::Time, k as int),
                opt_view(number) == column_text(vs, fsv, Field::StationNumber, k as int),
                time matches Some(t) ==> is_digits(t@),
                number matches Some(n) ==> is_digits(n@),
            decreases fs.len() - k,
        {
            let (b0, b1) = bounds[k];
            let (ta, tb) = if a {
                trim_range(&h, b0, b1)
            } else {
                (b0, b1)
            };
            proof {
                assert(pieces(h@, bounds@)[k as int] == h@.subrange(b0 as int, b1 as int));
                assert(vs[k as int] == h@.subrange(ta as int, tb as int));
                lemma_column_of(fsv, k as int);
            }
            let f = fs[k];
            let ghost old_values = values@;
            if f == Field::Time || f == Field::StationNumber {
                if !digits_in(&h, ta, tb) {
                    return Err(ParseRecordError);
                }
                let text = string_from_chars(&h, ta, tb);
                if f == Field::Time {
                    time = Some(text);
                } else {
                    number = Some(text);
                }
                proof {
                    assert forall|j: int| 0 <= j < OPTIONAL_COUNT implies opt_view(
                        #[trigger] values@[j],
                    ) == optional_value(column_text(vs, fsv, field_at(j + 2), k + 1)) by {
                        lemma_catalog_index();
                        if fsv.contains(field_at(j + 2)) {
                            let c = column_of(fsv, field_at(j + 2));
                            assert(fsv[c] == field_at(j + 2));
                            assert(field_at(j + 2).ord() == j + 2);
                            assert(c != k);
                        }
                    }
                }
            } else {
                let text = string_from_chars(&h, ta, tb);
                proof {
                    lemma_optional_slot(f);
                }
                let idx = f.index() - 2;
                let missing = match MissingValue::try_from(text.as_str()) {
                    Ok(_) => true,
                    Err(_) => false,
                };
                values[idx] = if missing {
                    None
                } else {
                    Some(text)
                };
                proof {
                    assert forall|j: int| 0 <= j < OPTIONAL_COUNT implies opt_view(
                        #[trigger] values@[j],
                    ) == optional_value(column_text(vs, fsv, field_at(j + 2), k + 1)) by {
                        lemma_catalog_index();
                        if j == idx {
                            assert(field_at(j + 2) == f);
                        } else {
                            assert(values@[j] == old_values[j]);
                            if fsv.contains(field_at(j + 2)) {
                                let c = column_of(fsv, field_at(j + 2));
                                assert(fsv[c] == field_at(j + 2));
                                assert(field_at(j + 2).ord() == j + 2);
                                assert(c != k);
                            }
                        }
                    }
                }
            }
            k = k + 1;
        }
        match (time, number) {
            (Some(t), Some(n)) => {
                let rec = RawRecord { time: t, station_number: n, values };
                proof {
                    assert(rec@.values =~= Seq::new(
                        OPTIONAL_COUNT as nat,
                        |j: int|
                            optional_value(
                                column_text(vs, fsv, field_at(j + 2), fsv.len() as int),
                            ),
                    ));
                }
                Ok(rec)
            },
            _ => Err(ParseRecordError),
        }
    }

    /// Writes the record as a data line in the given format, with the format's missing-value
    /// text for absent fields.
    pub fn to_csv(&self, format: &CsvFormat) -> (r: String)
        ensures
            r@ == render_line(self@, format@),
            well_formed_record(self@),
    {
        proof {
            use_type_invariant(self);
        }
        let fs = format.field_config.fields();
        let d = format.delimiter.as_char();
        let ghost cs = line_cells(self@, format@);
        let mut s = String::new();
        let mut i: usize = 0;
        while i < fs.len()
            invariant
                fs@ == format@.fields,
                d == format@.delimiter,
                cs == line_cells(self@, format@),
                i <= fs@.len(),
                s@ == join_cells(cs.subrange(0, i as int), d),
            decreases fs.len() - i,
        {
            let f = fs[i];
            if i != 0 {
                push_char(&mut s, d);
            }
            let ghost before = s@;
            let t = match self.value(f) {
                Some(v) => v,
                None => format.missing.as_str(),
            };
            let tl = t.unicode_len();
            let w = f.width() as usize;
            let pad: usize = if w >= tl {
                w - tl
            } else {
                0
            };
            if format.alignment && f != Field::StationName {
                push_spaces(&mut s, pad);
            }
            push_str(&mut s, t);
            if format.alignment && f == Field::StationName {
                push_spaces(&mut s, pad);
            }
            proof {
                assert(s@ =~= before + cs[i as int]);
                assert(cs.subrange(0, i + 1).drop_last() =~= cs.subrange(0, i as int));
            }
            i = i + 1;
        }
        proof {
            assert(cs.subrange(0, i as int) =~= cs);
        }
        s
    }
}

impl PartialEq for RawRecord {
    /// Records are the same when their timestamps and station numbers are.
    fn eq(&self, other: &RawRecord) -> (r: bool)
        ensures
            r == (self@.time == other@.time && self@.station_number == other@.station_number),
    {
        self.time == other.time && self.station_number == other.station_number
    }
}

impl vstd::std_specs::cmp::PartialEqSpecImpl for RawRecord {
    open spec fn obeys_eq_spec() -> bool {
        true
    }

    open spec fn eq_spec(&self, other: &RawRecord) -> bool {
        self@.time == other@.time && self@.station_number == other@.station_number
    }
}

/// Order of texts, character by character, as `str` orders them.
pub open spec fn text_cmp(a: Seq<char>, b: Seq<char>) -> core::cmp::Ordering
    decreases a.len(),
{
    if a.len() == 0 {
        if b.len() == 0 {
            core::cmp::Ordering::Equal
        } else {
            core::cmp::Ordering::Less
        }
    } else if b.len() == 0 {
        core::cmp::Ordering::Greater
    } else if a[0] < b[0] {
        core::cmp::Ordering::Less
    } else if a[0] > b[0] {
        core::cmp::Ordering::Greater
    } else {
        text_cmp(a.drop_first(), b.drop_first())
    }
}

/// Order of records: by timestamp, then by station number.
pub open spec fn record_cmp(a: RecordView, b: RecordView) -> core::cmp::Ordering {
    match text_cmp(a.time, b.time) {
        core::cmp::Ordering::Equal => text_cmp(a.station_number, b.station_number),
        o => o,
    }
}

fn compare_texts(a: &String, b: &String) -> (r: core::cmp::Ordering)
    ensures
        r == text_cmp(a@, b@),
{
    let x = chars_of(a.as_str());
    let y = chars_of(b.as_str());
    let mut i: usize = 0;
    assert(x@.subrange(0, x@.len() as int) =~= x@);
    assert(y@.subrange(0, y@.len() as int) =~= y@);
    while i < x.len() && i < y.len() && x[i] == y[i]
        invariant
            i <= x@.len(),
            i <= y@.len(),
            x@ == a@,
            y@ == b@,
            text_cmp(a@, b@) == text_cmp(x@.subrange(i as int, x@.len() as int), y@.subrange(
                i as int,
                y@.len() as int,
            )),
        decreases x.len() - i,
    {
        proof {
            assert(x@.subrange(i as int, x@.len() as int).drop_first() =~= x@.subrange(
                i + 1,
                x@.len() as int,
            ));
            assert(y@.subrange(i as int, y@.len() as int).drop_first() =~= y@.subrange(
                i + 1,
                y@.len() as int,
            ));
        }
        i = i + 1;
    }
    let ghost xs = x@.subrange(i as int, x@.len() as int);
    let ghost ys = y@.subrange(i as int, y@.len() as int);
    if i == x.len() {
        if i == y.len() {
            core::cmp::Ordering::Equal
        } else {
            core::cmp::Ordering::Less
        }
    } else if i == y.len() {
        core::cmp::Ordering::Greater
    } else {
        assert(xs[0] == x@[i as int] && ys[0] == y@[i as int]);
        if x[i] < y[i] {
            core::cmp::Ordering::Less
        } else {
            core::cmp::Ordering::Greater
        }
    }
}

impl PartialOrd for RawRecord {
    /// Records are ordered by timestamp, then by station number.
    fn partial_cmp(&self, other: &RawRecord) -> (r: Option<core::cmp::Ordering>)
        ensures
            r == Some(record_cmp(self@, other@)),
    {
        match compare_texts(&self.time, &other.time) {
            core::cmp::Ordering::Equal => Some(
                compare_texts(&self.station_number, &other.station_number),
            ),
            o => Some(o),
        }
    }
}

impl vstd::std_specs::cmp::PartialOrdSpecImpl for RawRecord {
    open spec fn obeys_partial_cmp_spec() -> bool {
        true
    }

    open spec fn partial_cmp_spec(&self, other: &RawRecord) -> Option<core::cmp::Ordering> {
        Some(record_cmp(self@, other@))
    }
}

impl Eq for RawRecord {

}

impl Clone for RawRecord {
    fn clone(&self) -> (r: RawRecord)
        ensures
            r@ == self@,
    {
        proof {
            use_type_invariant(self);
        }
        let mut values: Vec<Option<String>> = Vec::new();
        let mut i: usize = 0;
        while i < self.values.len()
            invariant
                i <= self.values@.len(),
                self.values@.len() == OPTIONAL_COUNT,
                values@.len() == i,
                forall|j: int|
                    0 <= j < i ==> opt_view(#[trigger] values@[j]) == opt_view(self.values@[j]),
            decreases self.values.len() - i,
        {
            let v = match &self.values[i] {
                Some(s) => Some(s.clone()),
                None => None,
            };
            values.push(v);
            i = i + 1;
        }
        let r = RawRecord {
            time: self.time.clone(),
            station_number: self.station_number.clone(),
            values,
        };
        assert(r@.values =~= self@.values);
        r
    }
}

/// The content of a `RecordFilter`.
pub struct RecordFilterView {
    pub names: Seq<Seq<char>>,
    pub numbers: Seq<Seq<char>>,
    pub exclude: bool,
}

/// The tokens among `toks` that are station numbers (`numbers`) or names (`!numbers`).
pub open spec fn tokens_of_kind(toks: Seq<Seq<char>>, numbers: bool) -> Seq<Seq<char>>
    decreases toks.len(),
{
    if toks.len() == 0 {
        seq![]
    } else {
        let pre = tokens_of_kind(toks.drop_last(), numbers);
        if is_digits(toks.last()) == numbers {
            pre.push(toks.last())
        } else {
            pre
        }
    }
}

/// The filter that specification `s` describes: none for an empty text; an error when a
/// comma-separated token is empty; else digit tokens as station numbers, the others as names.
pub open spec fn parse_filter(s: Seq<char>, invert: bool) -> Result<Option<RecordFilterView>, ()> {
    let toks = header_tokens(s, ',');
    if s.len() == 0 {
        Ok(None)
    } else if exists|i: int| 0 <= i < toks.len() && #[trigger] toks[i].len() == 0 {
        Err(())
    } else {
        Ok(
            Some(
                RecordFilterView {
                    names: tokens_of_kind(toks, false),
                    numbers: tokens_of_kind(toks, true),
                    exclude: invert,
                },
            ),
        )
    }
}

/// Whether record `r` belongs to a station of the filter.
pub open spec fn station_matches(fl: RecordFilterView, r: RecordView) -> bool {
    fl.numbers.contains(r.station_number) || match field_value(r, Field::StationName) {
        Some(n) => fl.names.contains(n),
        None => false,
    }
}

/// Keeps or drops records by station.
#[derive(Clone, Debug, PartialEq, Eq)]
pub struct RecordFilter {
    name_set: Vec<String>,
    number_set: Vec<String>,
    exclude: bool,
}

impl View for RecordFilter {
    type V = RecordFilterView;

    closed spec fn view(&self) -> RecordFilterView {
        RecordFilterView {
            names: self.name_set@.map_values(|s: String| s@),
            numbers: self.number_set@.map_values(|s: String| s@),
            exclude: self.exclude,
        }
    }
}

fn contains_text(v: &Vec<String>, t: &String) -> (r: bool)
    ensures
        r == v@.map_values(|s: String| s@).contains(t@),
{
    let ghost m = v@.map_values(|s: String| s@);
    let mut i: usize = 0;
    while i < v.len()
        invariant
            i <= v@.len(),
            m == v@.map_values(|s: String| s@),
            forall|j: int| 0 <= j < i ==> m[j] != t@,
        decreases v.len() - i,
    {
        if v[i] == *t {
            assert(m[i as int] == t@);
            return true;
        }
        i = i + 1;
    }
    false
}

impl RecordFilter {
    /// Parses a comma-separated list of station numbers and names; `invert` drops the
    /// listed stations instead of keeping them. An empty list gives no filter.
    pub fn from_str(filter_str: &str, invert: bool) -> (r: Result<
        Option<Self>,
        ParseRecordFilterError,
    >)
        ensures
            match r {
                Ok(Some(fl)) => parse_filter(filter_str@, invert) == Ok::<
                    Option<RecordFilterView>,
                    (),
                >(Some(fl@)),
                Ok(None) => parse_filter(filter_str@, invert) == Ok::<Option<RecordFilterView>, ()>(
                    None,
                ),
                Err(_) => parse_filter(filter_str@, invert) is Err,
            },
    {
        let h = chars_of(filter_str);
        if h.len() == 0 {
            return Ok(None);
        }
        let bounds = split_bounds(&h, ',');
        let ghost toks = header_tokens(h@, ',');
        let mut names: Vec<String> = Vec::new();
        let mut numbers: Vec<String> = Vec::new();
        let mut k: usize = 0;
        while k < bounds.len()
            invariant
                h@ == filter_str@,
                h@.len() > 0,
                pieces(h@, bounds@) == split(h@, ','),
                forall|j: int| 0 <= j < bounds@.len() ==> #[trigger] bounds@[j].0 <= bounds@[j].1
                    <= h@.len(),
                toks == header_tokens(h@, ','),
                toks.len() == bounds@.len(),
                k <= bounds@.len(),
                forall|j: int| 0 <= j < k ==> (#[trigger] toks[j]).len() > 0,
                names@.map_values(|s: String| s@) == tokens_of_kind(toks.subrange(0, k as int), false),
                numbers@.map_values(|s: String| s@) == tokens_of_kind(toks.subrange(0, k as int), true),
            decreases bounds.len() - k,
        {
            let (b0, b1) = bounds[k];
            let (ta, tb) = trim_range(&h, b0, b1);
            proof {
                assert(pieces(h@, bounds@)[k as int] == h@.subrange(b0 as int, b1 as int));
                assert(toks[k as int] == h@.subrange(ta as int, tb as int));
                assert(toks.subrange(0, k + 1).drop_last() =~= toks.subrange(0, k as int));
                assert(toks.subrange(0, k + 1).last() == toks[k as int]);
            }
            if ta == tb {
                return Err(ParseRecordFilterError);
            }
            let text = string_from_chars(&h, ta, tb);
            let ghost old_names = names@;
            let ghost old_numbers = numbers@;
            if digits_in(&h, ta, tb) {
                numbers.push(text);
            } else {
                names.push(text);
            }
            proof {
                assert(names@.map_values(|s: String| s@) =~= tokens_of_kind(
                    toks.subrange(0, k + 1),
                    false,
                )) by {
                    assert(old_names.map_values(|s: String| s@) == tokens_of_kind(
                        toks.subrange(0, k as int),
                        false,
                    ));
                }
                assert(numbers@.map_values(|s: String| s@) =~= tokens_of_kind(
                    toks.subrange(0, k + 1),
                    true,
                )) by {
                    assert(old_numbers.map_values(|s: String| s@) == tokens_of_kind(
                        toks.subrange(0, k as int),
                        true,
                    ));
                }
            }
            k = k + 1;
        }
        proof {
            assert(toks.subrange(0, k as int) =~= toks);
        }
        Ok(Some(RecordFilter { name_set: names, number_set: numbers, exclude: invert }))
    }

    /// Whether to keep `rec`: it belongs to a listed station, unless the filter excludes.
    pub fn filter(&self, rec: &RawRecord) -> (r: bool)
        ensures
            r == (station_matches(self@, rec@) != self@.exclude),
    {
        proof {
            use_type_invariant(rec);
            lemma_catalog_index();
        }
        let mut matches = contains_text(&self.number_set, &rec.station_number);
        if !matches {
            match &rec.values[0] {
                Some(n) => {
                    matches = contains_text(&self.name_set, n);
                },
                None => {},
            }
        }
        matches != self.exclude
    }
}

} // verus!
